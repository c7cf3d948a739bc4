//! Verified text helpers: splitting a string on a separator and reading a
//! decimal number the way `str::parse::<u32>().unwrap_or_default()` does.

use vstd::prelude::*;
use vstd::string::StrSliceExecFns;

verus! {

/// Whether `c` is a decimal digit.
pub open spec fn is_digit(c: char) -> bool {
    48 <= c as int && c as int <= 57
}

/// The value of a decimal digit.
pub open spec fn digit_val(c: char) -> int {
    c as int - 48
}

/// Whether every character of `s` is a decimal digit.
pub open spec fn all_digits(s: Seq<char>) -> bool {
    forall|i: int| 0 <= i < s.len() ==> is_digit(#[trigger] s[i])
}

/// The integer value of a digit string, most significant digit first.
pub open spec fn digits_val(s: Seq<char>) -> int
    decreases s.len(),
{
    if s.len() == 0 {
        0
    } else {
        digits_val(s.drop_last()) * 10 + digit_val(s.last())
    }
}

proof fn lemma_digits_val_nonneg(s: Seq<char>)
    requires
        all_digits(s),
    ensures
        digits_val(s) >= 0,
    decreases s.len(),
{
    if s.len() > 0 {
        assert(all_digits(s.drop_last())) by {
            assert forall|i: int| 0 <= i < s.drop_last().len() implies is_digit(
                #[trigger] s.drop_last()[i],
            ) by {
                assert(s.drop_last()[i] == s[i]);
            }
        }
        lemma_digits_val_nonneg(s.drop_last());
        assert(is_digit(s.last()));
    }
}

proof fn lemma_digits_val_push(s: Seq<char>, c: char)
    ensures
        digits_val(s.push(c)) == digits_val(s) * 10 + digit_val(c),
{
    assert(s.push(c).drop_last() =~= s);
    assert(s.push(c).last() == c);
}

/// The part of `s` that holds the digits: everything after one optional
/// leading `+` sign.
pub open spec fn num_part(s: Seq<char>) -> Seq<char> {
    if s.len() > 0 && s[0] == '+' {
        s.subrange(1, s.len() as int)
    } else {
        s
    }
}

/// What `str::parse::<u32>()` followed by `unwrap_or_default()` yields: the
/// digit value when the string is a non-empty decimal number in range (an
/// optional leading `+` is accepted), and `0` otherwise.
pub open spec fn parse_u32_spec(s: Seq<char>) -> u32 {
    let digits = num_part(s);
    if digits.len() > 0 && all_digits(digits) && digits_val(digits) <= u32::MAX {
        digits_val(digits) as u32
    } else {
        0
    }
}

/// Read a decimal `u32` from `s`, yielding `0` for anything that is not a
/// well-formed number in range.
pub fn parse_u32(s: &str) -> (r: u32)
    ensures
        r == parse_u32_spec(s@),
{
    let n = s.unicode_len();
    let start: usize = if n > 0 && s.get_char(0) == '+' {
        1
    } else {
        0
    };
    proof {
        assert(num_part(s@) =~= s@.subrange(start as int, n as int));
    }
    if start == n {
        return 0;
    }
    let mut acc: u64 = 0;
    let mut over = false;
    let mut j: usize = start;
    while j < n
        invariant
            start <= j <= n,
            n == s@.len(),
            num_part(s@) =~= s@.subrange(start as int, n as int),
            all_digits(s@.subrange(start as int, j as int)),
            !over ==> acc == digits_val(s@.subrange(start as int, j as int)) && acc <= u32::MAX,
            over ==> digits_val(s@.subrange(start as int, j as int)) > u32::MAX,
        decreases n - j,
    {
        let c = s.get_char(j);
        let cu = c as u32;
        proof {
            let pre = s@.subrange(start as int, j as int);
            let ext = s@.subrange(start as int, j as int + 1);
            assert(ext =~= pre.push(s@[j as int]));
            lemma_digits_val_push(pre, s@[j as int]);
            lemma_digits_val_nonneg(pre);
        }
        if cu < 48 || cu > 57 {
            proof {
                let digits = num_part(s@);
                assert(digits[j - start] == s@[j as int]);
                assert(!is_digit(digits[j - start]));
            }
            return 0;
        }
        let d = (cu - 48) as u64;
        if !over {
            if acc * 10 + d > 0xffff_ffffu64 {
                over = true;
            } else {
                acc = acc * 10 + d;
            }
        }
        j += 1;
    }
    proof {
        assert(s@.subrange(start as int, n as int) =~= num_part(s@));
        assert(num_part(s@).len() > 0);
    }
    if over {
        0
    } else {
        acc as u32
    }
}

/// The segments of `s` between occurrences of `sep`; there is always at
/// least one segment, and adjacent separators yield empty segments.
pub open spec fn split_spec(s: Seq<char>, sep: char) -> Seq<Seq<char>>
    decreases s.len(),
{
    if s.len() == 0 {
        seq![Seq::<char>::empty()]
    } else if s[0] == sep {
        seq![Seq::<char>::empty()] + split_spec(s.subrange(1, s.len() as int), sep)
    } else {
        let rest = split_spec(s.subrange(1, s.len() as int), sep);
        seq![seq![s[0]] + rest[0]] + rest.subrange(1, rest.len() as int)
    }
}

proof fn lemma_split_spec_len(s: Seq<char>, sep: char)
    ensures
        split_spec(s, sep).len() >= 1,
    decreases s.len(),
{
    if s.len() > 0 {
        lemma_split_spec_len(s.subrange(1, s.len() as int), sep);
    }
}

proof fn lemma_split_no_sep(s: Seq<char>, sep: char)
    requires
        forall|j: int| 0 <= j < s.len() ==> s[j] != sep,
    ensures
        split_spec(s, sep) =~~= seq![s],
    decreases s.len(),
{
    if s.len() == 0 {
        assert(split_spec(s, sep) =~~= seq![s]);
    } else {
        let tail = s.subrange(1, s.len() as int);
        assert forall|j: int| 0 <= j < tail.len() implies tail[j] != sep by {
            assert(tail[j] == s[j + 1]);
        }
        lemma_split_no_sep(tail, sep);
        lemma_split_spec_len(tail, sep);
        let rest = split_spec(tail, sep);
        assert(rest[0] == tail);
        assert(seq![s[0]] + rest[0] =~= s);
        assert(rest.subrange(1, rest.len() as int) =~= Seq::<Seq<char>>::empty());
        assert(split_spec(s, sep) =~~= seq![s]);
    }
}

proof fn lemma_split_first_sep(s: Seq<char>, sep: char, i: int)
    requires
        0 <= i < s.len(),
        s[i] == sep,
        forall|j: int| 0 <= j < i ==> s[j] != sep,
    ensures
        split_spec(s, sep) =~~= seq![s.subrange(0, i)] + split_spec(
            s.subrange(i + 1, s.len() as int),
            sep,
        ),
    decreases i,
{
    let tail = s.subrange(1, s.len() as int);
    if i == 0 {
        assert(s.subrange(0, 0) =~= Seq::<char>::empty());
        assert(s.subrange(1, s.len() as int) =~= tail);
        assert(split_spec(s, sep) =~~= seq![s.subrange(0, i)] + split_spec(
            s.subrange(i + 1, s.len() as int),
            sep,
        ));
    } else {
        assert(tail[i - 1] == sep);
        assert forall|j: int| 0 <= j < i - 1 implies tail[j] != sep by {
            assert(tail[j] == s[j + 1]);
        }
        lemma_split_first_sep(tail, sep, i - 1);
        lemma_split_spec_len(s.subrange(i + 1, s.len() as int), sep);
        let rest = split_spec(tail, sep);
        assert(rest =~~= seq![tail.subrange(0, i - 1)] + split_spec(
            tail.subrange(i, tail.len() as int),
            sep,
        ));
        assert(rest[0] == tail.subrange(0, i - 1));
        assert(seq![s[0]] + tail.subrange(0, i - 1) =~= s.subrange(0, i));
        assert(tail.subrange(i, tail.len() as int) =~= s.subrange(i + 1, s.len() as int));
        assert(rest.subrange(1, rest.len() as int) =~~= split_spec(
            s.subrange(i + 1, s.len() as int),
            sep,
        ));
        assert(split_spec(s, sep) =~~= seq![s.subrange(0, i)] + split_spec(
            s.subrange(i + 1, s.len() as int),
            sep,
        ));
    }
}

/// Split `s` at every occurrence of `sep`, as `str::split` does.
pub fn split_str(s: &str, sep: char) -> (parts: Vec<String>)
    ensures
        parts@.len() == split_spec(s@, sep).len(),
        forall|k: int| 0 <= k < parts@.len() ==> #[trigger] parts@[k]@ == split_spec(s@, sep)[k],
    decreases s@.len(),
{
    let n = s.unicode_len();
    let mut i: usize = 0;
    let mut found = false;
    while !found && i < n
        invariant
            i <= n,
            n == s@.len(),
            forall|j: int| 0 <= j < i ==> s@[j] != sep,
            found ==> i < n && s@[i as int] == sep,
        decreases 2 * (n - i) + (if found {
            0int
        } else {
            1int
        }),
    {
        if s.get_char(i) == sep {
            found = true;
        } else {
            i += 1;
        }
    }
    if found {
        let head = s.substring_char(0, i).to_owned();
        let tail = s.substring_char(i + 1, n);
        let rest = split_str(tail, sep);
        proof {
            lemma_split_first_sep(s@, sep, i as int);
        }
        let mut parts: Vec<String> = Vec::new();
        parts.push(head);
        let mut k: usize = 0;
        while k < rest.len()
            invariant
                k <= rest@.len(),
                parts@.len() == 1 + k,
                parts@[0]@ == s@.subrange(0, i as int),
                forall|m: int| 0 <= m < k ==> #[trigger] parts@[m + 1]@ == rest@[m]@,
                rest@.len() == split_spec(tail@, sep).len(),
                forall|m: int|
                    0 <= m < rest@.len() ==> #[trigger] rest@[m]@ == split_spec(tail@, sep)[m],
                tail@ == s@.subrange(i as int + 1, s@.len() as int),
            decreases rest@.len() - k,
        {
            let part = rest[k].clone();
            parts.push(part);
            k += 1;
        }
        proof {
            assert forall|m: int| 0 <= m < parts@.len() implies #[trigger] parts@[m]@ == split_spec(
                s@,
                sep,
            )[m] by {
                if m > 0 {
                    assert(parts@[(m - 1) + 1]@ == rest@[m - 1]@);
                }
            }
        }
        parts
    } else {
        proof {
            lemma_split_no_sep(s@, sep);
        }
        let mut parts: Vec<String> = Vec::new();
        parts.push(s.to_owned());
        parts
    }
}

} // verus!
