//! Identifiers.
use vstd::prelude::*;
use vstd::string::*;

use crate::outside::{check_gts_instance, check_gts_type, read_uuid, write_uuid};
use crate::text::after_prefix;

verus! {

/// The GTS type that every anonymous consumer group is an instance of.
pub const CONSUMER_GROUP_TYPE: &'static str = "gts.cf.core.events.consumer_group.v1~";

/// A registered producer.
#[derive(Debug, Clone, Copy, PartialEq, Eq, Structural)]
pub struct ProducerId(pub u128);

/// A member's subscription to a consumer group.
#[derive(Debug, Clone, Copy, PartialEq, Eq, Structural)]
pub struct SubscriptionId(pub u128);

/// An anonymous consumer group.
#[derive(Debug, Clone, Copy, PartialEq, Eq, Structural)]
pub struct ConsumerGroupId(pub u128);

impl ConsumerGroupId {
    /// The group's GTS instance id.
    pub open spec fn gts_text(self) -> Seq<char> {
        CONSUMER_GROUP_TYPE@ + crate::uuids::uuid_text(self.0)
    }

    /// The anonymous group that a GTS instance id names, if it names one. That its uuid may be
    /// spelled in any of the ways that uuids are is this library's choice.
    pub open spec fn reading(gts: Seq<char>) -> Option<ConsumerGroupId> {
        if CONSUMER_GROUP_TYPE@.is_prefix_of(gts) {
            match crate::uuids::uuid_reading(gts.skip(CONSUMER_GROUP_TYPE@.len() as int)) {
                Some(id) => Some(ConsumerGroupId(id)),
                None => None,
            }
        } else {
            None
        }
    }

    /// Writes the group's GTS instance id, from which [`ConsumerGroupId::try_from_gts`] reads
    /// the same group.
    pub fn to_gts(&self) -> (r: String)
        ensures
            r@ == self.gts_text(),
            Self::reading(r@) == Some(*self),
    {
        let tail = write_uuid(self.0);
        let r = CONSUMER_GROUP_TYPE.to_owned().concat(tail.as_str());
        proof {
            crate::uuids::law_text_spells_its_uuid(self.0);
        }
        assert(r@.skip(CONSUMER_GROUP_TYPE@.len() as int) =~= tail@);
        r
    }

    /// Reads an anonymous group's GTS instance id, `<type>~<uuid>`. A named group's id has no
    /// uuid to carry and is not read.
    pub fn try_from_gts(gts: &str) -> (r: Option<Self>)
        ensures
            r == Self::reading(gts@),
    {
        match after_prefix(gts, CONSUMER_GROUP_TYPE) {
            Some(tail) => {
                assert(gts@.skip(CONSUMER_GROUP_TYPE@.len() as int) =~= tail@);
                match read_uuid(tail.as_str()) {
                    Some(id) => {
                        proof {
                            crate::uuids::law_spellings_are_unambiguous(tail@, id);
                        }
                        Some(ConsumerGroupId(id))
                    },
                    None => None,
                }
            },
            None => None,
        }
    }
}

/// A named group's id is refused: whatever stands behind the type, no group is read where that
/// holds a dot, as every named instance does, or has no length of a uuid's spellings.
pub proof fn law_named_groups_are_refused(gts: Seq<char>)
    requires
        ({
            let tail = gts.skip(CONSUMER_GROUP_TYPE@.len() as int);
            ||| !CONSUMER_GROUP_TYPE@.is_prefix_of(gts)
            ||| tail.contains('.')
            ||| tail.len() != 32 && tail.len() != 36 && tail.len() != 38 && tail.len() != 45
        }),
    ensures
        ConsumerGroupId::reading(gts) is None,
{
    let tail = gts.skip(CONSUMER_GROUP_TYPE@.len() as int);
    assert forall|id: u128| !crate::uuids::spells(tail, id) || !CONSUMER_GROUP_TYPE@.is_prefix_of(
        gts,
    ) by {
        if crate::uuids::spells(tail, id) {
            crate::uuids::law_spellings_have_no_dots(tail, id);
        }
    }
}

/// An anonymous group's id is the type of such groups and a uuid: what stands behind the type is
/// read as a group exactly where it spells the group's uuid.
pub proof fn law_group_is_read_by_its_uuid(tail: Seq<char>, id: u128)
    ensures
        ConsumerGroupId::reading("gts.cf.core.events.consumer_group.v1~"@ + tail) == Some(
            ConsumerGroupId(id),
        ) <==> crate::uuids::spells(tail, id),
        ConsumerGroupId(id).gts_text() == "gts.cf.core.events.consumer_group.v1~"@
            + crate::uuids::uuid_text(id),
{
    let gts = CONSUMER_GROUP_TYPE@ + tail;
    assert(gts.skip(CONSUMER_GROUP_TYPE@.len() as int) =~= tail);
    assert(CONSUMER_GROUP_TYPE@.is_prefix_of(gts)) by {
        assert(gts.subrange(0, CONSUMER_GROUP_TYPE@.len() as int) =~= CONSUMER_GROUP_TYPE@);
    }
    if crate::uuids::spells(tail, id) {
        crate::uuids::law_spellings_are_unambiguous(tail, id);
    }
}

/// The id of an instance in the GTS; holding one means that it was found valid.
#[derive(Debug)]
pub struct GtsInstanceId {
    text: String,
}

impl View for GtsInstanceId {
    type V = Seq<char>;

    closed spec fn view(&self) -> Seq<char> {
        self.text@
    }
}

impl GtsInstanceId {
    #[verifier::type_invariant]
    spec fn valid(self) -> bool {
        crate::outside::gts_instance_refusal(self.text@) is None
    }

    /// Takes `text` as an instance id, or says why it is none.
    pub fn try_new(text: &str) -> (r: Result<Self, String>)
        ensures
            match r {
                Ok(id) => {
                    &&& crate::outside::gts_instance_refusal(text@) is None
                    &&& id@ == text@
                },
                Err(why) => crate::outside::gts_instance_refusal(text@) == Some(why@),
            },
    {
        match check_gts_instance(text) {
            Ok(text) => Ok(GtsInstanceId { text }),
            Err(why) => Err(why),
        }
    }

    /// The id's text, which is a valid instance id.
    pub fn as_str(&self) -> (r: &str)
        ensures
            r@ == self@,
            crate::outside::gts_instance_refusal(r@) is None,
    {
        proof {
            use_type_invariant(self);
        }
        self.text.as_str()
    }
}

/// The id of a type in the GTS; holding one means that it was found valid.
#[derive(Debug)]
pub struct GtsTypeId {
    text: String,
}

impl View for GtsTypeId {
    type V = Seq<char>;

    closed spec fn view(&self) -> Seq<char> {
        self.text@
    }
}

impl GtsTypeId {
    #[verifier::type_invariant]
    spec fn valid(self) -> bool {
        crate::outside::gts_type_refusal(self.text@) is None
    }

    /// Takes `text` as a type id, or says why it is none.
    pub fn try_new(text: &str) -> (r: Result<Self, String>)
        ensures
            match r {
                Ok(id) => {
                    &&& crate::outside::gts_type_refusal(text@) is None
                    &&& id@ == text@
                },
                Err(why) => crate::outside::gts_type_refusal(text@) == Some(why@),
            },
    {
        match check_gts_type(text) {
            Ok(text) => Ok(GtsTypeId { text }),
            Err(why) => Err(why),
        }
    }

    /// The id's text, which is a valid type id.
    pub fn as_str(&self) -> (r: &str)
        ensures
            r@ == self@,
            crate::outside::gts_type_refusal(r@) is None,
    {
        proof {
            use_type_invariant(self);
        }
        self.text.as_str()
    }
}

} // verus!
