//! What a run against a database of its own needs: where it is, when it is ready, and the types
//! that are created in it.
use vstd::prelude::*;
use vstd::string::*;

use crate::catalog::{UsageKind, UsageType};
use crate::text::{decimal_text, joined};

verus! {

/// How often a database that is starting is asked whether it is ready.
pub const READY_ATTEMPTS: u8 = 120;

/// How long to wait between two such questions, in milliseconds.
pub const READY_PAUSE_MILLIS: u64 = 500;

/// How long records are kept, in seconds: a year of 365 days.
pub const RETENTION_SECS: u64 = 31_536_000;

/// What to do after a database that is starting was asked whether it is ready.
#[derive(Debug, Clone, Copy, PartialEq, Eq, Structural)]
pub enum ReadyStep {
    /// Go on: it is ready, or it was asked often enough and the next statement will tell.
    Proceed,
    /// Pause, and then do as the step inside says: ask again for the given time, or go on.
    PauseThen(Option<u8>),
}

/// Decides what to do once the question number `asked` (counted from 0) was answered.
pub fn ready_step(asked: u8, ready: bool) -> (r: ReadyStep)
    requires
        asked < READY_ATTEMPTS,
    ensures
        r == (if ready {
            ReadyStep::Proceed
        } else if asked + 1 < READY_ATTEMPTS {
            ReadyStep::PauseThen(Some((asked + 1) as u8))
        } else {
            ReadyStep::PauseThen(None)
        }),
{
    if ready {
        ReadyStep::Proceed
    } else if asked + 1 < READY_ATTEMPTS {
        ReadyStep::PauseThen(Some(asked + 1))
    } else {
        ReadyStep::PauseThen(None)
    }
}

/// The address of a database that listens on this port of the machine itself.
pub fn local_url(port: u16) -> (r: String)
    ensures
        r@ == "http://127.0.0.1:"@ + crate::text::decimal(port as nat) + "/"@,
{
    joined("http://127.0.0.1:", decimal_text(port as u64).as_str(), "/")
}

/// The id of the counter that is told apart by `suffix`.
pub open spec fn counter_text(suffix: Seq<char>) -> Seq<char> {
    "gts.cf.core.uc.usage_record.v1~cf.compute._."@ + suffix + ".v1"@
}

/// The id of the counter that is told apart by `suffix`.
pub fn counter_gts_id(suffix: &str) -> (r: String)
    ensures
        r@ == counter_text(suffix@),
{
    joined("gts.cf.core.uc.usage_record.v1~cf.compute._.", suffix, ".v1")
}

/// The counter that is told apart by `suffix`: it has no metadata.
pub fn counter_usage_type(suffix: &str) -> (r: UsageType)
    ensures
        r.gts_id@ == counter_text(suffix@),
        r.kind == UsageKind::Counter,
        r.metadata_fields@.len() == 0,
{
    UsageType {
        gts_id: counter_gts_id(suffix),
        kind: UsageKind::Counter,
        metadata_fields: Vec::new(),
    }
}

/// Different suffixes give different ids.
pub proof fn law_suffixes_tell_counters_apart(a: Seq<char>, b: Seq<char>)
    requires
        counter_text(a) == counter_text(b),
    ensures
        a == b,
{
    let head = "gts.cf.core.uc.usage_record.v1~cf.compute._."@;
    let tail = ".v1"@;
    assert(counter_text(a).len() == head.len() + a.len() + tail.len());
    assert(counter_text(b).len() == head.len() + b.len() + tail.len());
    assert(counter_text(a).subrange(head.len() as int, (head.len() + a.len()) as int) =~= a);
    assert(counter_text(b).subrange(head.len() as int, (head.len() + b.len()) as int) =~= b);
}

/// A counter's id is its suffix between a fixed beginning and a fixed end.
pub proof fn law_counters_are_named_by_their_suffix(suffix: Seq<char>)
    ensures
        counter_text(suffix) == "gts.cf.core.uc.usage_record.v1~cf.compute._."@ + suffix + ".v1"@,
{
}

/// A database that is starting is asked until it is ready, and no more than 120 times: each answer
/// that it is not leads to a pause and the next question, and the last one to a pause alone.
pub proof fn law_database_is_asked_until_it_is_ready(asked: u8, ready: bool, step: ReadyStep)
    requires
        asked < 120,
        call_ensures(ready_step, (asked, ready), step),
    ensures
        step is Proceed <==> ready,
        !ready && asked < 119 ==> step->PauseThen_0 is Some && step->PauseThen_0->0 == asked + 1,
        !ready && asked == 119 ==> step->PauseThen_0 is None,
{
}

/// A database on this machine is addressed by its port.
pub proof fn law_local_databases_are_told_apart_by_port(port: u16, url: String)
    requires
        call_ensures(local_url, (port,), url),
    ensures
        url@ == "http://127.0.0.1:"@ + crate::text::decimal(port as nat) + "/"@,
{
}

} // verus!
