//! The name under which the device answers as `{hostname}.local`.

use vstd::prelude::*;
use super::hostname;

verus! {

/// Port of the HTTP service announced over mDNS.
pub const HTTP_SERVICE_PORT: u16 = 80;

/// A unique host name built from the product identifier and the MAC
/// address, such as `switch-1g-a1b2c3`.
pub fn make_hostname(product_id: &str, mac: [u8; 6]) -> (res: String)
    ensures
        res@ == hostname(product_id@, mac@),
{
    super::make_hostname(product_id, mac)
}

} // verus!
