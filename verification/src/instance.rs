//! Resolving an instance handle by identifier from a provider's full
//! instance listing.
//!
//! A listing groups instances into reservations. Lookup flattens across
//! all reservations, filters by identifier, and requires a unique match:
//! identifiers used for lookup must be unique within the account, so more
//! than one match is a fatal logic error rather than something to guess
//! about.

use crate::vm::VmError;
use vstd::prelude::*;

verus! {

/// What the listing reports about one instance, as plain values. Every
/// field mirrors an optional attribute of the provider's instance record.
pub struct InstanceInfo {
    pub instance_id: Option<String>,
    pub image_id: Option<String>,
    pub instance_type: Option<String>,
    pub state_name: Option<String>,
    pub public_ip: Option<String>,
}

/// One reservation of the listing: a provider-defined grouping of
/// instances. A reservation whose instance list is absent makes the whole
/// listing unusable for lookup.
pub struct Reservation {
    pub instances: Option<Vec<InstanceInfo>>,
}

/// A resolved instance handle: the identifier it was looked up by and the
/// descriptive metadata captured at retrieval time (not re-validated
/// thereafter).
pub struct InstanceHandle {
    pub instance_id: String,
    pub image_id: String,
    pub instance_type: String,
}

fn clone_opt_string(s: &Option<String>) -> (r: Option<String>)
    ensures
        r == *s,
{
    match s {
        Some(v) => Some(v.clone()),
        None => None,
    }
}

impl Clone for InstanceInfo {
    fn clone(&self) -> (r: Self)
        ensures
            r == *self,
    {
        InstanceInfo {
            instance_id: clone_opt_string(&self.instance_id),
            image_id: clone_opt_string(&self.image_id),
            instance_type: clone_opt_string(&self.instance_type),
            state_name: clone_opt_string(&self.state_name),
            public_ip: clone_opt_string(&self.public_ip),
        }
    }
}

/// Whether the listing reports this instance under the given identifier.
pub open spec fn id_matches(inst: InstanceInfo, id: Seq<char>) -> bool {
    match inst.instance_id {
        Some(s) => s@ == id,
        None => false,
    }
}

/// The instances of `insts` whose identifier is `id`, in listing order.
pub open spec fn matching_instances(insts: Seq<InstanceInfo>, id: Seq<char>) -> Seq<InstanceInfo>
    decreases insts.len(),
{
    if insts.len() == 0 {
        Seq::empty()
    } else if id_matches(insts.last(), id) {
        matching_instances(insts.drop_last(), id).push(insts.last())
    } else {
        matching_instances(insts.drop_last(), id)
    }
}

/// Whether every reservation of the listing carries its instance list.
pub open spec fn instances_listed(reservations: Seq<Reservation>) -> bool {
    forall|i: int| 0 <= i < reservations.len() ==> reservations[i].instances is Some
}

/// The matches for `id` across all reservations, flattened in listing
/// order. A reservation without an instance list contributes nothing;
/// `instances_listed` says whether that case arises at all.
pub open spec fn listing_matches(reservations: Seq<Reservation>, id: Seq<char>) -> Seq<
    InstanceInfo,
>
    decreases reservations.len(),
{
    if reservations.len() == 0 {
        Seq::empty()
    } else {
        listing_matches(reservations.drop_last(), id) + (match reservations.last().instances {
            Some(v) => matching_instances(v@, id),
            None => Seq::empty(),
        })
    }
}

fn instance_id_equals(inst: &InstanceInfo, id: &String) -> (b: bool)
    ensures
        b == id_matches(*inst, id@),
{
    match &inst.instance_id {
        Some(s) => *s == *id,
        None => false,
    }
}

fn collect_matches(acc: &mut Vec<InstanceInfo>, insts: &Vec<InstanceInfo>, id: &String)
    ensures
        final(acc)@ == old(acc)@ + matching_instances(insts@, id@),
{
    let mut k: usize = 0;
    while k < insts.len()
        invariant
            k <= insts@.len(),
            acc@ == old(acc)@ + matching_instances(insts@.take(k as int), id@),
        decreases insts@.len() - k,
    {
        let inst = &insts[k];
        proof {
            assert(insts@.take(k + 1 as int).drop_last() =~= insts@.take(k as int));
            assert(insts@.take(k + 1 as int).last() == insts@[k as int]);
        }
        if instance_id_equals(inst, id) {
            acc.push(inst.clone());
        }
        k += 1;
    }
    proof {
        assert(insts@.take(insts@.len() as int) =~= insts@);
    }
}

/// Filters the full listing by identifier, flattening across all
/// reservations. Returns `None` when the match set is empty, and also when
/// any reservation carries no instance list, since the listing can then
/// not be searched exhaustively.
pub fn filter_instances(reservations: &Vec<Reservation>, instance_id: &str) -> (r: Option<
    Vec<InstanceInfo>,
>)
    ensures
        (r is Some) <==> (instances_listed(reservations@) && listing_matches(
            reservations@,
            instance_id@,
        ).len() > 0),
        r matches Some(v) ==> v@ == listing_matches(reservations@, instance_id@),
{
    let id: String = instance_id.to_owned();
    let mut matches: Vec<InstanceInfo> = Vec::new();
    let mut i: usize = 0;
    while i < reservations.len()
        invariant
            i <= reservations@.len(),
            id@ == instance_id@,
            forall|j: int| 0 <= j < i ==> reservations@[j].instances is Some,
            matches@ == listing_matches(reservations@.take(i as int), instance_id@),
        decreases reservations@.len() - i,
    {
        proof {
            assert(reservations@.take(i + 1 as int).drop_last() =~= reservations@.take(i as int));
            assert(reservations@.take(i + 1 as int).last() == reservations@[i as int]);
        }
        match &reservations[i].instances {
            Some(insts) => {
                collect_matches(&mut matches, insts, &id);
            },
            None => {
                return None;
            },
        }
        i += 1;
    }
    proof {
        assert(reservations@.take(reservations@.len() as int) =~= reservations@);
    }
    if matches.len() > 0 {
        Some(matches)
    } else {
        None
    }
}

/// Resolves the unique instance matching `instance_id`. Zero matches (or a
/// listing that cannot be searched) is the soft not-found case; more than
/// one match aborts, since identifiers used for lookup must be unique.
pub fn get_instance(reservations: &Vec<Reservation>, instance_id: &str) -> (r: Result<
    Option<InstanceInfo>,
    VmError,
>)
    ensures
        (!instances_listed(reservations@) || listing_matches(reservations@, instance_id@).len()
            == 0) ==> r == Ok::<Option<InstanceInfo>, VmError>(None),
        (instances_listed(reservations@) && listing_matches(reservations@, instance_id@).len()
            == 1) ==> r == Ok::<Option<InstanceInfo>, VmError>(
            Some(listing_matches(reservations@, instance_id@)[0]),
        ),
        (instances_listed(reservations@) && listing_matches(reservations@, instance_id@).len()
            > 1) ==> r == Err::<Option<InstanceInfo>, VmError>(VmError::AmbiguousMatch),
{
    match filter_instances(reservations, instance_id) {
        Some(mut v) => {
            if v.len() == 1 {
                Ok(Some(v.remove(0)))
            } else {
                Err(VmError::AmbiguousMatch)
            }
        },
        None => Ok(None),
    }
}

/// The retrieval step of the lookup capability: resolves the unique
/// instance matching `instance_id` and captures its metadata in a handle
/// bound to that identifier. An instance whose image or type the listing
/// omits cannot be described and resolves to the not-found case, as does
/// an empty match set; an ambiguous match aborts.
pub fn retrieve_from_listing(reservations: &Vec<Reservation>, instance_id: &str) -> (r: Result<
    Option<InstanceHandle>,
    VmError,
>)
    ensures
        (!instances_listed(reservations@) || listing_matches(reservations@, instance_id@).len()
            == 0) ==> r == Ok::<Option<InstanceHandle>, VmError>(None),
        (instances_listed(reservations@) && listing_matches(reservations@, instance_id@).len()
            == 1) ==> match (
            listing_matches(reservations@, instance_id@)[0].image_id,
            listing_matches(reservations@, instance_id@)[0].instance_type,
        ) {
            (Some(img), Some(ty)) => r matches Ok(o) && o matches Some(h) && h.instance_id@
                == instance_id@ && h.image_id == img && h.instance_type == ty,
            _ => r == Ok::<Option<InstanceHandle>, VmError>(None),
        },
        (instances_listed(reservations@) && listing_matches(reservations@, instance_id@).len()
            > 1) ==> r == Err::<Option<InstanceHandle>, VmError>(VmError::AmbiguousMatch),
{
    match get_instance(reservations, instance_id) {
        Ok(Some(inst)) => match (inst.image_id, inst.instance_type) {
            (Some(image_id), Some(instance_type)) => Ok(
                Some(
                    InstanceHandle {
                        instance_id: instance_id.to_owned(),
                        image_id,
                        instance_type,
                    },
                ),
            ),
            _ => Ok(None),
        },
        Ok(None) => Ok(None),
        Err(e) => Err(e),
    }
}

/// The status the listing reports for one instance: the name of its state.
/// An instance record without a state name cannot answer a status poll.
pub fn instance_state_name(inst: &InstanceInfo) -> (r: Result<String, VmError>)
    ensures
        match inst.state_name {
            Some(s) => r matches Ok(n) && n@ == s@,
            None => r == Err::<String, VmError>(VmError::MissingStatus),
        },
{
    match &inst.state_name {
        Some(s) => Ok(s.clone()),
        None => Err(VmError::MissingStatus),
    }
}

} // verus!
