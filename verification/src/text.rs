//! Verified text utilities: decimal rendering and parsing of machine
//! integers, whitespace splitting of command lines, and decoding of raw
//! byte replies into strings.

use vstd::prelude::*;
use vstd::string::StrSliceExecFns;
use vstd::string::StringExecFns;

verus! {

/// The character for one decimal digit.
pub open spec fn dec_digit_char(d: nat) -> char {
    if d == 0 {
        '0'
    } else if d == 1 {
        '1'
    } else if d == 2 {
        '2'
    } else if d == 3 {
        '3'
    } else if d == 4 {
        '4'
    } else if d == 5 {
        '5'
    } else if d == 6 {
        '6'
    } else if d == 7 {
        '7'
    } else if d == 8 {
        '8'
    } else {
        '9'
    }
}

/// The decimal rendering of a natural number, most significant digit first,
/// with no leading zeros (a single `'0'` for zero).
pub open spec fn dec_nat(n: nat) -> Seq<char>
    decreases n,
{
    if n < 10 {
        seq![dec_digit_char(n)]
    } else {
        dec_nat(n / 10) + seq![dec_digit_char(n % 10)]
    }
}

/// The decimal rendering of an integer: a leading `'-'` for negatives.
pub open spec fn dec_int(i: int) -> Seq<char> {
    if i < 0 {
        seq!['-'] + dec_nat((-i) as nat)
    } else {
        dec_nat(i as nat)
    }
}

fn digit_str(d: u64) -> (s: &'static str)
    requires
        d < 10,
    ensures
        s@ == seq![dec_digit_char(d as nat)],
{
    proof {
        reveal_strlit("0");
        reveal_strlit("1");
        reveal_strlit("2");
        reveal_strlit("3");
        reveal_strlit("4");
        reveal_strlit("5");
        reveal_strlit("6");
        reveal_strlit("7");
        reveal_strlit("8");
        reveal_strlit("9");
        assert("0"@ =~= seq!['0']);
        assert("1"@ =~= seq!['1']);
        assert("2"@ =~= seq!['2']);
        assert("3"@ =~= seq!['3']);
        assert("4"@ =~= seq!['4']);
        assert("5"@ =~= seq!['5']);
        assert("6"@ =~= seq!['6']);
        assert("7"@ =~= seq!['7']);
        assert("8"@ =~= seq!['8']);
        assert("9"@ =~= seq!['9']);
    }
    match d {
        0 => "0",
        1 => "1",
        2 => "2",
        3 => "3",
        4 => "4",
        5 => "5",
        6 => "6",
        7 => "7",
        8 => "8",
        _ => "9",
    }
}

/// Renders an unsigned machine integer in decimal.
pub fn u64_to_string(n: u64) -> (s: String)
    ensures
        s@ == dec_nat(n as nat),
    decreases n,
{
    if n < 10 {
        digit_str(n).to_owned()
    } else {
        let mut s = u64_to_string(n / 10);
        s.append(digit_str(n % 10));
        s
    }
}

/// Renders a signed machine integer in decimal.
pub fn i64_to_string(v: i64) -> (s: String)
    ensures
        s@ == dec_int(v as int),
{
    if v >= 0 {
        u64_to_string(v as u64)
    } else {
        let mag: u64 = if v == i64::MIN {
            9223372036854775808u64
        } else {
            (-v) as u64
        };
        assert(mag as int == -(v as int));
        proof {
            reveal_strlit("-");
            assert("-"@ =~= seq!['-']);
        }
        let mut s = String::from_str("-");
        s.append(u64_to_string(mag).as_str());
        assert(s@ =~= dec_int(v as int));
        s
    }
}

/// Whether a character is a decimal digit.
pub open spec fn is_dec_digit(c: char) -> bool {
    48 <= c as u32 <= 57
}

/// The numeric value of one decimal digit character.
pub open spec fn digit_val(c: char) -> nat {
    (c as u32 - 48) as nat
}

/// A non-empty string of decimal digits.
pub open spec fn is_dec_string(s: Seq<char>) -> bool {
    s.len() > 0 && forall|i: int| 0 <= i < s.len() ==> is_dec_digit(s[i])
}

/// The numeric value of a digit string, most significant digit first.
pub open spec fn dec_val(s: Seq<char>) -> nat
    decreases s.len(),
{
    if s.len() == 0 {
        0
    } else {
        dec_val(s.drop_last()) * 10 + digit_val(s.last())
    }
}

/// The value of a digit string is at least the value of any prefix.
proof fn lemma_dec_val_prefix_le(s: Seq<char>, k: int)
    requires
        0 <= k <= s.len(),
    ensures
        dec_val(s.take(k)) <= dec_val(s),
    decreases s.len() - k,
{
    if k == s.len() {
        assert(s.take(k) =~= s);
    } else {
        lemma_dec_val_prefix_le(s, k + 1);
        assert(s.take(k + 1).drop_last() =~= s.take(k));
        assert(dec_val(s.take(k + 1)) == dec_val(s.take(k)) * 10 + digit_val(s.take(k + 1).last()));
    }
}

/// Parses a decimal digit string into an unsigned machine integer.
/// Succeeds exactly when the whole string is one or more decimal digits
/// and the value fits.
pub fn parse_u64(s: &str) -> (r: Option<u64>)
    ensures
        r is Some <==> is_dec_string(s@) && dec_val(s@) <= u64::MAX,
        r matches Some(n) ==> n as nat == dec_val(s@),
{
    let len = s.unicode_len();
    if len == 0 {
        return None;
    }
    let mut acc: u64 = 0;
    for i in 0..len
        invariant
            len == s@.len(),
            len > 0,
            forall|j: int| 0 <= j < i ==> is_dec_digit(s@[j]),
            acc as nat == dec_val(s@.take(i as int)),
    {
        let c = s.get_char(i);
        let code = c as u32;
        if code < 48 || code > 57 {
            return None;
        }
        let d = (code - 48) as u64;
        let room = (u64::MAX - d) / 10;
        if acc > room {
            proof {
                assert(room * 10 <= u64::MAX - d) by (nonlinear_arith)
                    requires
                        room == (u64::MAX - d) / 10,
                        d <= 9,
                ;
                assert(room * 10 + 9 >= u64::MAX - d) by (nonlinear_arith)
                    requires
                        room == (u64::MAX - d) / 10,
                        d <= 9,
                ;
                assert(acc * 10 + d > u64::MAX);
                assert(s@.take(i + 1).drop_last() =~= s@.take(i as int));
                assert(s@.take(i + 1).last() == s@[i as int]);
                assert(dec_val(s@.take(i + 1)) > u64::MAX);
                lemma_dec_val_prefix_le(s@, i + 1);
            }
            return None;
        }
        proof {
            assert(acc * 10 + d <= u64::MAX) by (nonlinear_arith)
                requires
                    acc <= room,
                    room == (u64::MAX - d) / 10,
                    d <= 9,
            ;
            assert(s@.take(i + 1).drop_last() =~= s@.take(i as int));
            assert(s@.take(i + 1).last() == s@[i as int]);
        }
        acc = acc * 10 + d;
    }
    proof {
        assert(s@.take(len as int) =~= s@);
    }
    Some(acc)
}

/// The position of the first space, or `-1` if there is none.
pub open spec fn find_sp(s: Seq<char>) -> int
    decreases s.len(),
{
    if s.len() == 0 {
        -1
    } else if s[0] == ' ' {
        0
    } else {
        let r = find_sp(s.drop_first());
        if r < 0 {
            -1
        } else {
            r + 1
        }
    }
}

/// The pieces of a string split on single spaces, keeping empty pieces,
/// as the splitting of command text into arguments sees them.
pub open spec fn split_sp(s: Seq<char>) -> Seq<Seq<char>>
    decreases s.len(),
{
    let i = find_sp(s);
    if 0 <= i < s.len() {
        seq![s.take(i)] + split_sp(s.skip(i + 1))
    } else {
        seq![s]
    }
}

/// Where the first space search lands: either there is none, or it names
/// the first one.
proof fn lemma_find_sp_characterization(s: Seq<char>)
    ensures
        find_sp(s) == -1 ==> (forall|i: int| 0 <= i < s.len() ==> s[i] != ' '),
        find_sp(s) != -1 ==> 0 <= find_sp(s) < s.len(),
        find_sp(s) != -1 ==> s[find_sp(s)] == ' ',
        forall|i: int| 0 <= i < find_sp(s) ==> s[i] != ' ',
    decreases s.len(),
{
    if s.len() == 0 {
    } else if s[0] == ' ' {
    } else {
        let rest = s.drop_first();
        lemma_find_sp_characterization(rest);
        assert forall|i: int| 1 <= i < s.len() implies rest[i - 1] == s[i] by {}
        let r = find_sp(s);
        let rr = find_sp(rest);
        if rr == -1 {
            assert forall|i: int| 0 <= i < s.len() implies s[i] != ' ' by {
                if i >= 1 {
                    assert(rest[i - 1] != ' ');
                }
            }
        } else {
            assert(r == rr + 1);
            assert(s[r] == rest[rr]);
            assert forall|i: int| 0 <= i < r implies s[i] != ' ' by {
                if i >= 1 {
                    assert(rest[i - 1] != ' ');
                }
            }
        }
    }
}

/// The first space of a string that has no space before position `k` and
/// a space at `k` is at `k`.
proof fn lemma_find_sp_at(t: Seq<char>, k: int)
    requires
        0 <= k < t.len(),
        t[k] == ' ',
        forall|j: int| 0 <= j < k ==> t[j] != ' ',
    ensures
        find_sp(t) == k,
{
    lemma_find_sp_characterization(t);
    let r = find_sp(t);
    if r == -1 {
        assert(t[k] != ' ');
    } else if r < k {
        assert(t[r] != ' ');
    } else if r > k {
        assert(t[k] != ' ');
    }
}

/// Splits command text on single spaces into its arguments, keeping
/// empty arguments, as the backend command line expects.
pub fn split_spaces(s: &str) -> (r: Vec<String>)
    ensures
        r.deep_view() == split_sp(s@),
{
    let len = s.unicode_len();
    let mut r: Vec<String> = Vec::new();
    let mut start: usize = 0;
    proof {
        assert(s@.skip(0) =~= s@);
        assert(r.deep_view() =~= Seq::<Seq<char>>::empty());
        assert(Seq::<Seq<char>>::empty().add(split_sp(s@)) =~= split_sp(s@));
    }
    for i in 0..len
        invariant
            len == s@.len(),
            start <= i <= len,
            forall|j: int| start <= j < i ==> s@[j] != ' ',
            r.deep_view().add(split_sp(s@.skip(start as int))) == split_sp(s@),
    {
        let c = s.get_char(i);
        if c == ' ' {
            let token = s.substring_char(start, i).to_owned();
            proof {
                let tail = s@.skip(start as int);
                assert forall|j: int| 0 <= j < tail.len() implies tail[j] == s@[start + j] by {}
                lemma_find_sp_at(tail, i - start);
                assert(split_sp(tail) == seq![tail.take(i - start)] + split_sp(
                    tail.skip(i - start + 1),
                ));
                assert(seq![tail.take(i - start)] + split_sp(tail.skip(i - start + 1))
                    == seq![tail.take(i - start)].add(split_sp(tail.skip(i - start + 1))));
                assert(tail.take(i - start) =~= s@.subrange(start as int, i as int));
                assert(tail.skip(i - start + 1) =~= s@.skip(i + 1));
                assert(token@ == s@.subrange(start as int, i as int));
            }
            let ghost old_pieces = r.deep_view();
            r.push(token);
            proof {
                assert(r.deep_view() =~= old_pieces.push(token@));
                assert(old_pieces.push(token@) =~= old_pieces.add(seq![token@]));
                assert(old_pieces.add(seq![token@]).add(split_sp(s@.skip(i + 1)))
                    =~= old_pieces.add(seq![token@].add(split_sp(s@.skip(i + 1)))));
                assert(r.deep_view().add(split_sp(s@.skip(i + 1))) == split_sp(s@));
            }
            start = i + 1;
        }
    }
    let token = s.substring_char(start, len).to_owned();
    proof {
        let tail = s@.skip(start as int);
        assert forall|j: int| 0 <= j < tail.len() implies tail[j] == s@[start + j] by {}
        lemma_find_sp_characterization(tail);
        if find_sp(tail) != -1 {
            assert(tail[find_sp(tail)] == ' ');
            assert(s@[start + find_sp(tail)] == ' ');
        }
        assert(split_sp(tail) == seq![tail]);
        assert(token@ == s@.subrange(start as int, len as int));
        assert(token@ =~= tail);
    }
    let ghost old_pieces = r.deep_view();
    r.push(token);
    proof {
        assert(r.deep_view() =~= old_pieces.push(token@));
        assert(old_pieces.push(token@) =~= old_pieces.add(seq![token@]));
        assert(r.deep_view() =~= old_pieces.add(split_sp(s@.skip(start as int))));
        assert(r.deep_view() == split_sp(s@));
    }
    r
}

/// Relies on `String::from_utf8`: it succeeds exactly on valid UTF-8 and
/// returns the decoded characters of the given bytes.
#[verifier::external_body]
pub fn bytes_to_string(bytes: &Vec<u8>) -> (r: Option<String>)
    ensures
        r is Some <==> vstd::utf8::valid_utf8(bytes@),
        r matches Some(s) ==> s@ == vstd::utf8::decode_utf8(bytes@),
{
    match String::from_utf8(bytes.clone()) {
        Ok(s) => Some(s),
        Err(_) => None,
    }
}

} // verus!
