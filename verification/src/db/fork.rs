//! Names for the database forks in which a transaction is analysed.

use vstd::prelude::*;
use vstd::string::*;
use crate::ident::{is_hyphenated_uuid, is_lower_hex};
use crate::text::chars_of;

verus! {

/// The text without its hyphens.
pub open spec fn without_hyphens(text: Seq<char>) -> Seq<char> {
    text.filter(|c: char| c != '-')
}

/// The name of the fork for a user and a transaction: the user's identifier
/// without hyphens and the first eight characters of the transaction's.
pub open spec fn fork_name(user_id: Seq<char>, transaction_id: Seq<char>) -> Seq<char> {
    "user_"@ + without_hyphens(user_id) + "_txn_"@ + transaction_id.subrange(0, 8)
}

/// Names the fork for a user and a transaction. The transaction's identifier
/// has to open with eight ASCII characters, as every hyphenated UUID does.
pub fn generate_fork_name(user_id: &str, transaction_id: &str) -> (name: String)
    requires
        transaction_id@.len() >= 8,
        forall|i: int| 0 <= i < 8 ==> (transaction_id@[i] as u32) < 128,
    ensures
        name@ == fork_name(user_id@, transaction_id@),
{
    let chars = chars_of(user_id);
    let mut name = String::from_str("user_");
    let mut i: usize = 0;
    while i < chars.len()
        invariant
            i <= chars@.len(),
            chars@ == user_id@,
            name@ == "user_"@ + without_hyphens(user_id@.take(i as int)),
        decreases chars@.len() - i,
    {
        proof {
            reveal(Seq::filter);
            assert(user_id@.take(i + 1).drop_last() =~= user_id@.take(i as int));
        }
        if chars[i] != '-' {
            let one = user_id.substring_char(i, i + 1);
            assert(one@ =~= seq![user_id@[i as int]]);
            name.append(one);
            assert(name@ =~= "user_"@ + without_hyphens(user_id@.take(i + 1)));
        }
        i += 1;
    }
    assert(user_id@.take(i as int) =~= user_id@);
    name.append("_txn_");
    name.append(transaction_id.substring_char(0, 8));
    name
}

/// Every hyphenated UUID opens with eight ASCII characters, so every
/// transaction that was derived from a request can name its fork.
pub proof fn lemma_uuid_names_a_fork(transaction_id: Seq<char>)
    requires
        is_hyphenated_uuid(transaction_id),
    ensures
        transaction_id.len() >= 8,
        forall|i: int| 0 <= i < 8 ==> (#[trigger] transaction_id[i] as u32) < 128,
{
    assert forall|i: int| 0 <= i < 8 implies (#[trigger] transaction_id[i] as u32) < 128 by {
        assert(is_lower_hex(transaction_id[i]));
    }
}

} // verus!
