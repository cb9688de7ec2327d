//! Account permissions for a proposal's target instruction, and the
//! parser for their command-line form `pubkey:is_signer:is_writable`.

use vstd::prelude::*;
use vstd::string::*;
use crate::errors::GovernanceError;
use crate::solana::{base58_decoded_32, parse_pubkey};
use crate::text::str_equal;

verus! {

/// One account the target instruction touches, with its permissions.
#[derive(Debug, Clone)]
pub struct AccountPermission {
    /// The account's address, in base58.
    pub address: String,
    /// Must the account sign the transaction?
    pub is_signer: bool,
    /// May the instruction write the account?
    pub is_writable: bool,
}

/// `s` holds colons exactly at positions `i` and `j`.
pub open spec fn valid_split(s: Seq<char>, i: int, j: int) -> bool {
    &&& 0 <= i < j < s.len()
    &&& s[i] == ':'
    &&& s[j] == ':'
    &&& forall|k: int| 0 <= k < s.len() && k != i && k != j ==> s[k] != ':'
}

/// A permission flag is the word `true` or `false`.
pub open spec fn is_flag(w: Seq<char>) -> bool {
    w == "true"@ || w == "false"@
}

/// What parsing an account permission yields: the text must fall into
/// three colon-separated fields, the last two must be flag words, and
/// the first must be a base58 public key; the fields are returned as
/// (address, is_signer, is_writable).
pub open spec fn spec_parse_account_permission(s: Seq<char>) -> Result<
    (Seq<char>, bool, bool),
    GovernanceError,
> {
    if !(exists|i: int, j: int| valid_split(s, i, j)) {
        Err(GovernanceError::AccountPermissionFormat)
    } else {
        let (i, j) = choose|i: int, j: int| valid_split(s, i, j);
        let address = s.subrange(0, i);
        let signer_word = s.subrange(i + 1, j);
        let writable_word = s.subrange(j + 1, s.len() as int);
        if !(is_flag(signer_word) && is_flag(writable_word)) {
            Err(GovernanceError::AccountPermissionFlag)
        } else if base58_decoded_32(address) is None {
            Err(GovernanceError::AccountPermissionAddress)
        } else {
            Ok((address, signer_word == "true"@, writable_word == "true"@))
        }
    }
}

/// A text has at most one pair of colon positions.
proof fn lemma_valid_split_unique(s: Seq<char>, i1: int, j1: int, i2: int, j2: int)
    requires
        valid_split(s, i1, j1),
        valid_split(s, i2, j2),
    ensures
        i1 == i2,
        j1 == j2,
{
    if i2 != i1 && i2 != j1 {
        assert(s[i2] != ':');
    }
    if j2 != i1 && j2 != j1 {
        assert(s[j2] != ':');
    }
}

/// Find the two colons of a well-formed permission, or report that no
/// two-colon decomposition exists.
fn find_colons(s: &str) -> (r: Option<(usize, usize)>)
    ensures
        match r {
            Some(p) => valid_split(s@, p.0 as int, p.1 as int),
            None => forall|i: int, j: int| !valid_split(s@, i, j),
        },
{
    let n: usize = s.unicode_len();
    let mut first: Option<usize> = None;
    let mut second: Option<usize> = None;
    let mut k: usize = 0;
    while k < n
        invariant
            n == s@.len(),
            0 <= k <= n,
            match (first, second) {
                (None, None) => forall|t: int| 0 <= t < k ==> s@[t] != ':',
                (Some(f), None) => f < k && s@[f as int] == ':' && (forall|t: int|
                    0 <= t < k && t != f ==> s@[t] != ':'),
                (Some(f), Some(g)) => f < g < k && s@[f as int] == ':' && s@[g as int] == ':'
                    && (forall|t: int| 0 <= t < k && t != f && t != g ==> s@[t] != ':'),
                (None, Some(_)) => false,
            },
        decreases n - k,
    {
        let c = s.get_char(k);
        if c == ':' {
            if first.is_none() {
                first = Some(k);
            } else if second.is_none() {
                second = Some(k);
            } else {
                let ghost f = first->Some_0 as int;
                let ghost g = second->Some_0 as int;
                proof {
                    assert forall|i: int, j: int| !valid_split(s@, i, j) by {
                        if valid_split(s@, i, j) {
                            if f != i && f != j {
                                assert(s@[f] != ':');
                            }
                            if g != i && g != j {
                                assert(s@[g] != ':');
                            }
                            if k as int != i && k as int != j {
                                assert(s@[k as int] != ':');
                            }
                        }
                    }
                }
                return None;
            }
        }
        k += 1;
    }
    match (first, second) {
        (Some(f), Some(g)) => Some((f, g)),
        _ => {
            proof {
                assert forall|i: int, j: int| !valid_split(s@, i, j) by {
                    if valid_split(s@, i, j) {
                        match (first, second) {
                            (None, None) => {
                                assert(s@[i] != ':');
                            },
                            (Some(f), None) => {
                                if i != f as int {
                                    assert(s@[i] != ':');
                                }
                                if j != f as int {
                                    assert(s@[j] != ':');
                                }
                            },
                            _ => {},
                        }
                    }
                }
            }
            None
        },
    }
}

/// Parse the command-line form `pubkey:is_signer:is_writable` of one
/// account permission. Returns exactly what
/// `spec_parse_account_permission` says: the fields on success, and the
/// first applicable of the format, flag and address errors otherwise.
pub fn parse_account_permission(s: &str) -> (r: Result<AccountPermission, GovernanceError>)
    ensures
        match spec_parse_account_permission(s@) {
            Ok(p) => r is Ok && r->Ok_0.address@ == p.0 && r->Ok_0.is_signer == p.1
                && r->Ok_0.is_writable == p.2,
            Err(e) => r is Err && r->Err_0 == e,
        },
{
    let n: usize = s.unicode_len();
    match find_colons(s) {
        None => Err(GovernanceError::AccountPermissionFormat),
        Some((i, j)) => {
            proof {
                let (ci, cj) = choose|a: int, b: int| valid_split(s@, a, b);
                lemma_valid_split_unique(s@, ci, cj, i as int, j as int);
            }
            let address = s.substring_char(0, i);
            let signer_word = s.substring_char(i + 1, j);
            let writable_word = s.substring_char(j + 1, n);
            let signer_true = str_equal(signer_word, "true");
            let signer_false = str_equal(signer_word, "false");
            let writable_true = str_equal(writable_word, "true");
            let writable_false = str_equal(writable_word, "false");
            if !(signer_true || signer_false) || !(writable_true || writable_false) {
                return Err(GovernanceError::AccountPermissionFlag);
            }
            match parse_pubkey(address) {
                Err(_) => Err(GovernanceError::AccountPermissionAddress),
                Ok(_) => Ok(
                    AccountPermission {
                        address: String::from_str(address),
                        is_signer: signer_true,
                        is_writable: writable_true,
                    },
                ),
            }
        },
    }
}

} // verus!
