//! Names for queue items.

use vstd::prelude::*;
use vstd::string::*;

verus! {

/// A digit of a hexadecimal number in lower case.
pub open spec fn is_lower_hex(c: char) -> bool {
    ||| '0' <= c <= '9'
    ||| 'a' <= c <= 'f'
}

/// A random (version 4) UUID in lower case with hyphens.
pub open spec fn is_uuid_v4(text: Seq<char>) -> bool {
    &&& text.len() == 36
    &&& forall|i: int|
        0 <= i < 36 ==> if i == 8 || i == 13 || i == 18 || i == 23 {
            #[trigger] text[i] == '-'
        } else {
            is_lower_hex(text[i])
        }
    &&& text[14] == '4'
    &&& (text[19] == '8' || text[19] == '9' || text[19] == 'a' || text[19] == 'b')
}

/// A UUID drawn at random.
///
/// Calls `uuid::Uuid::new_v4` and its `to_string`. The claim is about the form
/// alone: which UUID comes is left to chance, and so is whether it came before.
/// Where the system has no random bytes to give, the call does not return.
#[verifier::external_body]
pub(crate) fn random_uuid() -> (r: String)
    ensures
        is_uuid_v4(r@),
{
    uuid::Uuid::new_v4().to_string()
}

/// The name of a queue item that was given this UUID.
pub open spec fn queue_item_id(uuid: Seq<char>) -> Seq<char> {
    "q_"@ + uuid
}

/// A new name for a queue item.
pub fn new_queue_item_id() -> (r: String)
    ensures
        exists|uuid: Seq<char>| #[trigger] is_uuid_v4(uuid) && r@ == queue_item_id(uuid),
{
    let uuid = random_uuid();
    let mut r = "q_".to_string();
    r.append(uuid.as_str());
    assert(is_uuid_v4(uuid@) && r@ == queue_item_id(uuid@));
    r
}

} // verus!
