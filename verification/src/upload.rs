//! Names under which uploaded documents are stored: the local time and a
//! random number, so that two uploads do not share a name.

use vstd::prelude::*;
use crate::decimal::{all_digits, decimal, digits, digits_value, is_digit, lemma_digits_shape, lemma_parse_decimal, u64_to_string};

verus! {

/// `rand::random::<u32>()`. The number is random: nothing is stated of it.
#[verifier::external_body]
fn random_u32() -> u32 {
    rand::random::<u32>()
}

/// The number written by the two characters of `s` from `at` on.
pub open spec fn two_digit_field(s: Seq<char>, at: int) -> int {
    digits_value(s.subrange(at, at + 2))
}

/// The shape of the local time as chrono writes it with the pattern
/// `%Y%m%dT%H%M%S`: the year (four digits, or for years outside 0..=9999 a
/// sign and at least four digits), two digits each for month (01-12) and day
/// (01-31), `T`, and two digits each for hours (00-23), minutes (00-59) and
/// seconds (00-60, for a leap second).
pub open spec fn timestamp_shape(s: Seq<char>) -> bool {
    let n = s.len();
    &&& n >= 15
    &&& s[n - 7] == 'T'
    &&& all_digits(s.subrange(n - 15, n - 7))
    &&& all_digits(s.subrange(n - 6, n as int))
    &&& (n == 15 || ((s[0] == '+' || s[0] == '-') && all_digits(s.subrange(1, n - 15))))
    &&& 1 <= two_digit_field(s, n - 11) <= 12
    &&& 1 <= two_digit_field(s, n - 9) <= 31
    &&& two_digit_field(s, n - 6) <= 23
    &&& two_digit_field(s, n - 4) <= 59
    &&& two_digit_field(s, n - 2) <= 60
}

/// The pattern of the time stamp in a stored document's name.
pub open spec fn timestamp_pattern() -> Seq<char> {
    "%Y%m%dT%H%M%S"@
}

/// `chrono::Local::now().format(pattern).to_string()`: the local time as
/// text, for the one pattern this crate uses (other patterns may make
/// `to_string` panic). Which time it is depends on the clock and the time
/// zone and is not stated; its shape, with the ranges that chrono documents
/// for `%Y`, `%m`, `%d`, `%H`, `%M` and `%S`, is.
#[verifier::external_body]
fn local_timestamp(pattern: &str) -> (r: String)
    requires
        pattern@ == timestamp_pattern(),
    ensures
        timestamp_shape(r@),
{
    chrono::Local::now().format(pattern).to_string()
}

/// The stored name of a document uploaded at time `stamp` with the random
/// number `nonce`: "{stamp}-{nonce}.doc".
pub open spec fn upload_name(stamp: Seq<char>, nonce: u32) -> Seq<char> {
    stamp + "-"@ + decimal(nonce as int) + ".doc"@
}

/// The stored name for a document uploaded at time `stamp` with the random
/// number `nonce`.
pub fn upload_name_from(stamp: &str, nonce: u32) -> (r: String)
    ensures
        r@ == upload_name(stamp@, nonce),
{
    let mut name = String::from_str(stamp);
    name.append("-");
    let number = u64_to_string(nonce as u64);
    name.append(number.as_str());
    name.append(".doc");
    assert(name@ =~= upload_name(stamp@, nonce));
    name
}

/// A fresh name for an uploaded document, from the local time and a random
/// number. Which time and which number is not stated; the name is a time
/// stamp of chrono's shape, '-', a number and ".doc", whatever came back.
pub fn fresh_upload_name() -> (r: String)
    ensures
        exists|stamp: Seq<char>, nonce: u32|
            timestamp_shape(stamp) && r@ == #[trigger] upload_name(stamp, nonce),
{
    let stamp = local_timestamp("%Y%m%dT%H%M%S");
    let nonce = random_u32();
    let r = upload_name_from(stamp.as_str(), nonce);
    assert(timestamp_shape(stamp@) && r@ == upload_name(stamp@, nonce));
    r
}

/// Two uploads stored in the same second get different names whenever their
/// random numbers differ.
pub proof fn law_upload_names_differ(stamp: Seq<char>, first: u32, second: u32)
    requires
        first != second,
    ensures
        upload_name(stamp, first) != upload_name(stamp, second),
{
    let a = upload_name(stamp, first);
    let b = upload_name(stamp, second);
    if a == b {
        reveal_strlit("-");
        reveal_strlit(".doc");
        let start = stamp.len() + 1;
        assert(a.subrange(start as int, a.len() - 4) =~= decimal(first as int));
        assert(b.subrange(start as int, b.len() - 4) =~= decimal(second as int));
        lemma_parse_decimal(first as nat);
        lemma_parse_decimal(second as nat);
    }
}

/// A stored document's name names a file in the upload folder itself: it
/// holds no '/', so it can neither climb out of `uploads/` nor reach into a
/// folder below it, whatever the uploader called the file.
pub proof fn law_upload_names_stay_in_folder(stamp: Seq<char>, nonce: u32)
    requires
        timestamp_shape(stamp),
    ensures
        forall|i: int|
            0 <= i < upload_name(stamp, nonce).len() ==> #[trigger] upload_name(stamp, nonce)[i]
                != '/',
{
    reveal_strlit("-");
    reveal_strlit(".doc");
    lemma_digits_shape(nonce as nat);
    let name = upload_name(stamp, nonce);
    let n = stamp.len();
    let number = decimal(nonce as int);
    assert(number == digits(nonce as nat));
    assert forall|i: int| 0 <= i < name.len() implies #[trigger] name[i] != '/' by {
        if i < n {
            assert(name[i] == stamp[i]);
            if i < n - 15 {
                if i > 0 {
                    assert(stamp.subrange(1, n - 15)[i - 1] == stamp[i]);
                    assert(is_digit(stamp.subrange(1, n - 15)[i - 1]));
                }
            } else if i < n - 7 {
                assert(stamp.subrange(n - 15, n - 7)[i - (n - 15)] == stamp[i]);
                assert(is_digit(stamp.subrange(n - 15, n - 7)[i - (n - 15)]));
            } else if i > n - 7 {
                assert(stamp.subrange(n - 6, n as int)[i - (n - 6)] == stamp[i]);
                assert(is_digit(stamp.subrange(n - 6, n as int)[i - (n - 6)]));
            }
        } else if i == n {
            assert(name[i] == '-');
        } else if i < n + 1 + number.len() {
            assert(name[i] == number[i - n - 1]);
            assert(is_digit(number[i - n - 1]));
        } else {
            assert(name[i] == ".doc"@[i - n - 1 - number.len()]);
        }
    }
}

proof fn lemma_stamp_has_no_dash(stamp: Seq<char>, i: int)
    requires
        timestamp_shape(stamp),
        0 < i < stamp.len(),
    ensures
        stamp[i] != '-',
{
    let n = stamp.len();
    if i < n - 15 {
        assert(stamp.subrange(1, n - 15)[i - 1] == stamp[i]);
        assert(is_digit(stamp.subrange(1, n - 15)[i - 1]));
    } else if i < n - 7 {
        assert(stamp.subrange(n - 15, n - 7)[i - (n - 15)] == stamp[i]);
        assert(is_digit(stamp.subrange(n - 15, n - 7)[i - (n - 15)]));
    } else if i > n - 7 {
        assert(stamp.subrange(n - 6, n as int)[i - (n - 6)] == stamp[i]);
        assert(is_digit(stamp.subrange(n - 6, n as int)[i - (n - 6)]));
    }
}

/// Stored names tell uploads apart: two uploads whose time stamps or random
/// numbers differ get different names, so one document never overwrites
/// another's file.
pub proof fn law_upload_names_are_distinct(
    first_stamp: Seq<char>,
    first_nonce: u32,
    second_stamp: Seq<char>,
    second_nonce: u32,
)
    requires
        timestamp_shape(first_stamp),
        timestamp_shape(second_stamp),
        first_stamp != second_stamp || first_nonce != second_nonce,
    ensures
        upload_name(first_stamp, first_nonce) != upload_name(second_stamp, second_nonce),
{
    reveal_strlit("-");
    reveal_strlit(".doc");
    let a = upload_name(first_stamp, first_nonce);
    let b = upload_name(second_stamp, second_nonce);
    let m = first_stamp.len();
    let k = second_stamp.len();
    if a == b {
        if m < k {
            assert(a[m as int] == '-');
            assert(b[m as int] == second_stamp[m as int]);
            lemma_stamp_has_no_dash(second_stamp, m as int);
        } else if k < m {
            assert(b[k as int] == '-');
            assert(a[k as int] == first_stamp[k as int]);
            lemma_stamp_has_no_dash(first_stamp, k as int);
        } else {
            assert(a.take(m as int) =~= first_stamp);
            assert(b.take(k as int) =~= second_stamp);
            assert(a.subrange(m + 1int, a.len() - 4) =~= decimal(first_nonce as int));
            assert(b.subrange(k + 1int, b.len() - 4) =~= decimal(second_nonce as int));
            lemma_parse_decimal(first_nonce as nat);
            lemma_parse_decimal(second_nonce as nat);
        }
    }
}

} // verus!
