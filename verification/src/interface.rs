//! Choosing the interface to bind: which of the system's interfaces are
//! usable for this gateway, and which one a bind request names.
//!
//! Enumerating the system's interfaces is outside work; it hands the library
//! plain records, one per reported address.

use vstd::prelude::*;
use vstd::string::StringExecFns;
use crate::types::NetworkInterface;

verus! {

/// One interface record as the system reports it: its name, its address in
/// dotted-decimal text, and whether it is a loopback or carries an IPv4
/// address.
#[derive(Debug, Clone)]
pub struct RawInterface {
    pub name: String,
    pub ip: String,
    pub loopback: bool,
    pub ipv4: bool,
}

/// Whether a reported interface is usable here: not a loopback, and IPv4.
pub open spec fn usable(x: RawInterface) -> bool {
    !x.loopback && x.ipv4
}

/// Whether a reported interface answers a bind request for `name`.
pub open spec fn matches_name(x: RawInterface, name: Seq<char>) -> bool {
    usable(x) && x.name@ == name
}

/// Name and address texts of the usable interfaces, in reported order.
pub open spec fn usable_of(raw: Seq<RawInterface>) -> Seq<(Seq<char>, Seq<char>)>
    decreases raw.len(),
{
    if raw.len() == 0 {
        Seq::empty()
    } else {
        usable_of(raw.drop_last()) + (if usable(raw.last()) {
            seq![(raw.last().name@, raw.last().ip@)]
        } else {
            Seq::empty()
        })
    }
}

/// Keeps the usable interfaces, in reported order.
pub fn usable_interfaces(raw: &Vec<RawInterface>) -> (r: Vec<NetworkInterface>)
    ensures
        r@.len() == usable_of(raw@).len(),
        forall|i: int|
            0 <= i < r@.len() ==> (#[trigger] r@[i]).name@ == usable_of(raw@)[i].0 && r@[i].ip@
                == usable_of(raw@)[i].1,
{
    let mut r: Vec<NetworkInterface> = Vec::new();
    let mut idx: usize = 0;
    while idx < raw.len()
        invariant
            idx <= raw@.len(),
            r@.len() == usable_of(raw@.subrange(0, idx as int)).len(),
            forall|i: int|
                0 <= i < r@.len() ==> (#[trigger] r@[i]).name@ == usable_of(
                    raw@.subrange(0, idx as int),
                )[i].0 && r@[i].ip@ == usable_of(raw@.subrange(0, idx as int))[i].1,
        decreases raw@.len() - idx,
    {
        let x = &raw[idx];
        if !x.loopback && x.ipv4 {
            r.push(
                NetworkInterface {
                    name: String::from_str(x.name.as_str()),
                    ip: String::from_str(x.ip.as_str()),
                },
            );
        }
        idx += 1;
        proof {
            let prefix = raw@.subrange(0, idx as int);
            assert(prefix.drop_last() =~= raw@.subrange(0, idx as int - 1));
            assert(prefix.last() == raw@[idx as int - 1]);
        }
    }
    proof {
        assert(raw@.subrange(0, raw@.len() as int) =~= raw@);
    }
    r
}

/// Resolves a bind request: the address of the first usable interface with
/// the requested name, or nothing when no usable interface has it.
pub fn find_interface_ip(raw: &Vec<RawInterface>, name: &String) -> (r: Option<String>)
    ensures
        r is Some == exists|i: int| 0 <= i < raw@.len() && matches_name(#[trigger] raw@[i], name@),
        (r matches Some(ip) ==> exists|i: int|
            0 <= i < raw@.len() && matches_name(#[trigger] raw@[i], name@) && ip@ == raw@[i].ip@ && (
            forall|j: int| 0 <= j < i ==> !matches_name(#[trigger] raw@[j], name@))),
{
    let mut idx: usize = 0;
    while idx < raw.len()
        invariant
            idx <= raw@.len(),
            forall|j: int| 0 <= j < idx ==> !matches_name(#[trigger] raw@[j], name@),
        decreases raw@.len() - idx,
    {
        let x = &raw[idx];
        if !x.loopback && x.ipv4 && x.name == *name {
            return Some(String::from_str(x.ip.as_str()));
        }
        idx += 1;
    }
    None
}

} // verus!
