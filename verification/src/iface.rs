//! The network-interface stage: the configured interface name must be an
//! exact element of the list of interface names present on the host.  A
//! prefix or substring match does not count.

use vstd::prelude::*;

use crate::errors::StageError;
use crate::text::str_eq;

verus! {

/// The configured name is an exact element of the list.
pub open spec fn iface_present(iface: Seq<char>, ifaces: Seq<Seq<char>>) -> bool {
    exists|i: int| 0 <= i < ifaces.len() && ifaces[i] == iface
}

/// The network-interface stage: succeeds exactly when `iface` is an
/// exact element of `ifaces`, and fails with `InterfaceNotFound`
/// carrying the configured name otherwise.
pub fn check_net_iface(iface: &str, ifaces: &Vec<String>) -> (r: Result<(), StageError>)
    ensures
        r is Ok <==> iface_present(iface@, ifaces.deep_view()),
        r matches Err(e) ==> e matches StageError::InterfaceNotFound { name } && name@ == iface@,
{
    let n = ifaces.len();
    let mut i: usize = 0;
    while i < n
        invariant
            i <= n,
            n == ifaces.len(),
            forall|j: int| 0 <= j < i ==> ifaces.deep_view()[j] != iface@,
        decreases n - i,
    {
        if str_eq(iface, ifaces[i].as_str()) {
            proof {
                assert(ifaces.deep_view()[i as int] == iface@);
            }
            return Ok(());
        }
        proof {
            assert(ifaces.deep_view()[i as int] == ifaces@[i as int]@);
        }
        i += 1;
    }
    Err(StageError::InterfaceNotFound { name: iface.to_owned() })
}

} // verus!
