//! Module arguments and the credentials they carry.
//!
//! Every argument has the form `key=value`; one without `=` is a key with an
//! empty value. Where a key occurs more than once the last occurrence
//! counts. Only `token` and `user_token` are read, and both are required.

use vstd::prelude::*;

verus! {

/// The two opaque tokens that authorise sending a notification to one
/// user's device.
#[derive(Debug, PartialEq, Eq)]
pub struct Credentials {
    /// Application-level credential of the delivery service.
    pub token: String,
    /// Recipient-level credential of the delivery service.
    pub user_token: String,
}

/// The text of a pair of credentials.
pub struct CredentialsView {
    pub token: Seq<char>,
    pub user_token: Seq<char>,
}

impl View for Credentials {
    type V = CredentialsView;

    open spec fn view(&self) -> CredentialsView {
        CredentialsView { token: self.token@, user_token: self.user_token@ }
    }
}

/// The text of each argument, in order.
pub open spec fn arg_views(args: Seq<String>) -> Seq<Seq<char>> {
    Seq::new(args.len(), |i: int| args[i]@)
}

/// Whether `at` is where `arg` is split: the place of its first `=`, or its
/// length where it has none.
pub open spec fn splits_at(arg: Seq<char>, at: int) -> bool {
    &&& 0 <= at <= arg.len()
    &&& forall|j: int| 0 <= j < at ==> arg[j] != '='
    &&& at < arg.len() ==> arg[at] == '='
}

/// The place of the first `=` in `arg`, or its length where it has none.
pub open spec fn separator_position(arg: Seq<char>) -> int
    decreases arg.len(),
{
    if arg.len() == 0 || arg[0] == '=' {
        0
    } else {
        1 + separator_position(arg.drop_first())
    }
}

/// What stands before the first `=`.
pub open spec fn key_of(arg: Seq<char>) -> Seq<char> {
    arg.subrange(0, separator_position(arg))
}

/// What stands after the first `=`; empty where there is none.
pub open spec fn value_of(arg: Seq<char>) -> Seq<char> {
    if separator_position(arg) < arg.len() {
        arg.subrange(separator_position(arg) + 1, arg.len() as int)
    } else {
        Seq::empty()
    }
}

/// The value given for `key`: that of the last argument with this key.
pub open spec fn lookup(args: Seq<Seq<char>>, key: Seq<char>) -> Option<Seq<char>>
    decreases args.len(),
{
    if args.len() == 0 {
        None
    } else if key_of(args.last()) == key {
        Some(value_of(args.last()))
    } else {
        lookup(args.drop_last(), key)
    }
}

/// The credentials that the arguments carry, if they carry both.
pub open spec fn required_credentials(args: Seq<Seq<char>>) -> Option<CredentialsView> {
    match (lookup(args, "token"@), lookup(args, "user_token"@)) {
        (Some(token), Some(user_token)) => Some(CredentialsView { token, user_token }),
        _ => None,
    }
}

/// `separator_position` is the one place at which an argument is split.
pub proof fn lemma_separator_position(arg: Seq<char>, at: int)
    ensures
        splits_at(arg, separator_position(arg)),
        splits_at(arg, at) ==> at == separator_position(arg),
    decreases arg.len(),
{
    if arg.len() > 0 && arg[0] != '=' {
        let rest = arg.drop_first();
        lemma_separator_position(rest, at - 1);
        let p = separator_position(rest);
        assert forall|j: int| 0 <= j < p + 1 implies arg[j] != '=' by {
            if j > 0 {
                assert(rest[j - 1] == arg[j]);
            }
        }
        if splits_at(arg, at) {
            assert(splits_at(rest, at - 1));
        }
    }
}

/// Splits an argument at its first `=` into key and value.
pub fn split_argument(arg: &str) -> (parts: (&str, &str))
    ensures
        parts.0@ == key_of(arg@),
        parts.1@ == value_of(arg@),
{
    let len: usize = arg.unicode_len();
    let mut at: usize = 0;
    while at < len && arg.get_char(at) != '='
        invariant
            at <= len,
            len == arg@.len(),
            forall|j: int| 0 <= j < at ==> arg@[j] != '=',
        decreases len - at,
    {
        at += 1;
    }
    proof {
        lemma_separator_position(arg@, at as int);
    }
    let key = arg.substring_char(0, at);
    if at < len {
        (key, arg.substring_char(at + 1, len))
    } else {
        proof {
            reveal_strlit("");
        }
        (key, "")
    }
}

/// Looks up the value given for `key` among the module arguments.
pub fn find_option(args: &Vec<String>, key: &str) -> (value: Option<String>)
    ensures
        match value {
            Some(text) => lookup(arg_views(args@), key@) == Some(text@),
            None => lookup(arg_views(args@), key@) is None,
        },
{
    let wanted = String::from_str(key);
    let mut found: Option<String> = None;
    let mut i: usize = 0;
    while i < args.len()
        invariant
            i <= args.len(),
            wanted@ == key@,
            match found {
                Some(text) => lookup(arg_views(args@).take(i as int), key@) == Some(text@),
                None => lookup(arg_views(args@).take(i as int), key@) is None,
            },
        decreases args.len() - i,
    {
        let (name, value) = split_argument(args[i].as_str());
        assert(arg_views(args@).take(i + 1).drop_last() =~= arg_views(args@).take(i as int));
        if String::from_str(name) == wanted {
            found = Some(String::from_str(value));
        }
        i += 1;
    }
    assert(arg_views(args@).take(i as int) =~= arg_views(args@));
    found
}

/// Reads the two required credentials from the module arguments.
///
/// Returns `None` exactly when `token` or `user_token` is not given.
pub fn resolve(args: &Vec<String>) -> (credentials: Option<Credentials>)
    ensures
        match credentials {
            Some(found) => required_credentials(arg_views(args@)) == Some(found@),
            None => required_credentials(arg_views(args@)) is None,
        },
{
    match find_option(args, "token") {
        Some(token) => match find_option(args, "user_token") {
            Some(user_token) => Some(Credentials { token, user_token }),
            None => None,
        },
        None => None,
    }
}

} // verus!
