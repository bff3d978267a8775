//! The public address of the host as the upload client reports it.
use vstd::prelude::*;

verus! {

broadcast use vstd::string::group_string_axioms;

/// The text of the public address: the address that was found, written
/// out, or the empty text when the lookup failed.
pub open spec fn pub_ip_text(fetched: Option<Seq<char>>) -> Seq<char> {
    match fetched {
        Some(t) => t,
        None => Seq::<char>::empty(),
    }
}

/// The text of an optional string.
pub open spec fn opt_string_text(s: Option<String>) -> Option<Seq<char>> {
    match s {
        Some(t) => Some(t@),
        None => None,
    }
}

/// The public address as text, from the outcome of the lookup: the
/// address found, or the empty text when none was.
pub fn get_pub_ip_str(fetched: Option<String>) -> (r: String)
    ensures
        r@ == pub_ip_text(opt_string_text(fetched)),
{
    match fetched {
        Some(t) => t,
        None => {
            let r = String::new();
            r
        },
    }
}

} // verus!
