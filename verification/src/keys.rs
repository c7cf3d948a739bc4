//! The cancel-key combination: one main key plus any one of a set of option
//! keys.  Keys are carried by name; turning a name into a device keycode is
//! the concern of whatever polls the keyboard.

use crate::error::Error;
use crate::text::{split_spec, split_str};
use std::str::FromStr;
use vstd::prelude::*;
use vstd::string::StringExecFns;

verus! {

/// Whether a name denotes a key of the key map; the answer is a function
/// of the name alone.
pub uninterp spec fn key_known(name: Seq<char>) -> bool;

/// Relies on `device_query::Keycode::from_str`: whether the name denotes
/// a key of the key map.
#[verifier::external_body]
fn is_known_key(name: &str) -> (r: bool)
    ensures
        r == key_known(name@),
{
    device_query::Keycode::from_str(name).is_ok()
}

/// Whether some element of `keys` reads as the name `k`.
pub open spec fn contains_name(keys: Seq<String>, k: Seq<char>) -> bool {
    exists|i: int| 0 <= i < keys.len() && #[trigger] keys[i]@ == k
}

/// One main key together with a set of option keys; the combination counts
/// as pressed when the main key and at least one option key are down.
#[derive(Debug)]
pub struct ActionKeys {
    pub main_key: String,
    pub opt_keys: Vec<String>,
}

impl ActionKeys {
    /// The option-key names that `parse` yields: the part after the first
    /// `-`, split on `/`; `S/Enter` when no `-` is present.
    pub open spec fn parsed_opts(s: Seq<char>) -> Seq<Seq<char>> {
        let parts = split_spec(s, '-');
        if parts.len() >= 2 {
            split_spec(parts[1], '/')
        } else {
            split_spec("S/Enter"@, '/')
        }
    }

    /// The text that `to_text` yields for the first `i` option keys: each
    /// name, `/`-separated.
    pub open spec fn opts_text(keys: Seq<String>, i: int) -> Seq<char>
        decreases i,
    {
        if i <= 0 {
            Seq::empty()
        } else {
            Self::opts_text(keys, i - 1) + keys[i - 1]@ + (if i - 1 != keys.len() - 1 {
                "/"@
            } else {
                Seq::<char>::empty()
            })
        }
    }

    /// The textual form of the combination: the main key, `-`, then the
    /// option keys joined by `/`.
    pub open spec fn text_spec(self) -> Seq<char> {
        self.main_key@ + "-"@ + Self::opts_text(self.opt_keys@, self.opt_keys@.len() as int)
    }

    /// Build a combination from a main key and its option keys.
    pub fn new(main_key: String, opt_keys: Vec<String>) -> (a: ActionKeys)
        ensures
            a.main_key == main_key,
            a.opt_keys == opt_keys,
    {
        ActionKeys { main_key, opt_keys }
    }

    /// Parse a `Main-Opt1/Opt2/...` string; a missing option part reads as
    /// `S/Enter`, and a name that no key carries is a configuration error.
    pub fn parse(keys: &str) -> (r: Result<ActionKeys, Error>)
        ensures
            r is Ok <==> key_known(split_spec(keys@, '-')[0]) && (forall|i: int|
                0 <= i < Self::parsed_opts(keys@).len() ==> key_known(
                    #[trigger] Self::parsed_opts(keys@)[i],
                )),
            r matches Ok(a) ==> a.main_key@ == split_spec(keys@, '-')[0] && a.opt_keys@.len()
                == Self::parsed_opts(keys@).len() && (forall|i: int|
                0 <= i < a.opt_keys@.len() ==> #[trigger] a.opt_keys@[i]@ == Self::parsed_opts(
                    keys@,
                )[i]),
            r matches Err(e) ==> e matches Error::InvalidKey(n) && !key_known(n@),
    {
        let parts = split_str(keys, '-');
        let main_key = parts[0].clone();
        if !is_known_key(main_key.as_str()) {
            return Err(Error::InvalidKey(main_key));
        }
        let opt_keys = if parts.len() >= 2 {
            split_str(parts[1].as_str(), '/')
        } else {
            split_str("S/Enter", '/')
        };
        let mut i: usize = 0;
        while i < opt_keys.len()
            invariant
                i <= opt_keys@.len(),
                opt_keys@.len() == Self::parsed_opts(keys@).len(),
                forall|j: int|
                    0 <= j < opt_keys@.len() ==> #[trigger] opt_keys@[j]@ == Self::parsed_opts(
                        keys@,
                    )[j],
                forall|j: int| 0 <= j < i ==> key_known(#[trigger] opt_keys@[j]@),
            decreases opt_keys@.len() - i,
        {
            if !is_known_key(opt_keys[i].as_str()) {
                let name = opt_keys[i].clone();
                proof {
                    assert(!key_known(Self::parsed_opts(keys@)[i as int]));
                }
                return Err(Error::InvalidKey(name));
            }
            i += 1;
        }
        proof {
            assert forall|j: int|
                0 <= j < Self::parsed_opts(keys@).len() implies key_known(
                #[trigger] Self::parsed_opts(keys@)[j],
            ) by {
                assert(opt_keys@[j]@ == Self::parsed_opts(keys@)[j]);
                assert(key_known(opt_keys@[j]@));
            }
        }
        Ok(ActionKeys { main_key, opt_keys })
    }

    /// The textual form of the combination, `Main-Opt1/Opt2/...`.
    pub fn to_text(&self) -> (r: String)
        ensures
            r@ == self.text_spec(),
    {
        let mut out = String::new();
        out.append(self.main_key.as_str());
        out.append("-");
        let mut i: usize = 0;
        while i < self.opt_keys.len()
            invariant
                i <= self.opt_keys@.len(),
                out@ == self.main_key@ + "-"@ + Self::opts_text(self.opt_keys@, i as int),
            decreases self.opt_keys@.len() - i,
        {
            out.append(self.opt_keys[i].as_str());
            if i != self.opt_keys.len() - 1 {
                out.append("/");
            }
            i += 1;
        }
        out
    }

    /// Whether the pressed keys `keys` hold the main key and at least one
    /// option key.
    pub fn check(&self, keys: Vec<String>) -> (r: bool)
        ensures
            r == (contains_name(keys@, self.main_key@) && exists|i: int|
                0 <= i < self.opt_keys@.len() && contains_name(
                    keys@,
                    #[trigger] self.opt_keys@[i]@,
                )),
    {
        if !contains_key(&keys, &self.main_key) {
            false
        } else {
            let mut pressed = false;
            let mut i: usize = 0;
            while i < self.opt_keys.len()
                invariant
                    i <= self.opt_keys@.len(),
                    pressed == exists|j: int|
                        0 <= j < i && contains_name(keys@, #[trigger] self.opt_keys@[j]@),
                decreases self.opt_keys@.len() - i,
            {
                if contains_key(&keys, &self.opt_keys[i]) {
                    pressed = true;
                }
                i += 1;
            }
            pressed
        }
    }
}

impl core::default::Default for ActionKeys {
    /// The default combination: `LAlt` with `S` or `Enter`.
    fn default() -> (a: ActionKeys)
        ensures
            a.main_key@ == "LAlt"@,
            a.opt_keys@.len() == 2,
            a.opt_keys@[0]@ == "S"@,
            a.opt_keys@[1]@ == "Enter"@,
    {
        let main_key = "LAlt".to_owned();
        let mut opt_keys: Vec<String> = Vec::new();
        opt_keys.push("S".to_owned());
        opt_keys.push("Enter".to_owned());
        ActionKeys { main_key, opt_keys }
    }
}

/// Whether `keys` holds the name `k`.
fn contains_key(keys: &Vec<String>, k: &String) -> (r: bool)
    ensures
        r == contains_name(keys@, k@),
{
    let mut i: usize = 0;
    while i < keys.len()
        invariant
            i <= keys@.len(),
            forall|j: int| 0 <= j < i ==> #[trigger] keys@[j]@ != k@,
        decreases keys@.len() - i,
    {
        if keys[i] == *k {
            return true;
        }
        i += 1;
    }
    false
}

} // verus!
