//! Track references and the identifiers they denote.
//!
//! A track reference is a string of exactly 22 base-62 digits whose value fits
//! in 128 bits. The digits are `0`-`9` (0 to 9), `a`-`z` (10 to 35) and `A`-`Z`
//! (36 to 61), most significant first.

use vstd::prelude::*;

verus! {

/// Number of characters in a track reference.
pub const REFERENCE_LEN: usize = 22;

/// Whether `c` is one of the 62 digits.
pub open spec fn is_digit(c: char) -> bool {
    ('0' <= c <= '9') || ('a' <= c <= 'z') || ('A' <= c <= 'Z')
}

/// The value of a digit: 0 to 61. Zero for any other character.
pub open spec fn digit_value(c: char) -> nat {
    if '0' <= c <= '9' {
        (c as int - '0' as int) as nat
    } else if 'a' <= c <= 'z' {
        (c as int - 'a' as int + 10) as nat
    } else if 'A' <= c <= 'Z' {
        (c as int - 'A' as int + 36) as nat
    } else {
        0
    }
}

/// Whether every character of `s` is a digit.
pub open spec fn all_digits(s: Seq<char>) -> bool {
    forall|i: int| 0 <= i < s.len() ==> is_digit(#[trigger] s[i])
}

/// The number that a string of digits denotes in base 62.
pub open spec fn base62_value(s: Seq<char>) -> nat
    decreases s.len(),
{
    if s.len() == 0 {
        0
    } else {
        62 * base62_value(s.drop_last()) + digit_value(s.last())
    }
}

/// The grammar of track references.
pub open spec fn is_track_reference(s: Seq<char>) -> bool {
    &&& s.len() == REFERENCE_LEN
    &&& all_digits(s)
    &&& base62_value(s) <= u128::MAX
}

/// Why a string is not a track reference.
#[derive(Clone, Copy, Debug, PartialEq, Eq, Structural)]
pub enum ParseError {
    /// The string does not have exactly 22 characters.
    InvalidLength,
    /// The string has 22 characters, one of which is not a digit.
    InvalidCharacter,
    /// The string is 22 digits long and denotes a number of more than 128 bits.
    OutOfRange,
}

/// What parsing `s` gives: the number of the track, or the first of the three
/// defects that `s` has.
pub open spec fn parse_spec(s: Seq<char>) -> Result<nat, ParseError> {
    if s.len() != REFERENCE_LEN {
        Err(ParseError::InvalidLength)
    } else if !all_digits(s) {
        Err(ParseError::InvalidCharacter)
    } else if base62_value(s) > u128::MAX {
        Err(ParseError::OutOfRange)
    } else {
        Ok(base62_value(s))
    }
}

/// A validated track identifier. The only way to one is [`TrackIdentifier::parse`].
#[derive(Clone, Copy, Debug, PartialEq, Eq, Structural)]
pub struct TrackIdentifier {
    id: u128,
}

impl View for TrackIdentifier {
    type V = nat;

    closed spec fn view(&self) -> nat {
        self.id as nat
    }
}

/// Whether `r` is what parsing `s` gives.
pub open spec fn parsed(s: Seq<char>, r: Result<TrackIdentifier, ParseError>) -> bool {
    match r {
        Ok(track) => parse_spec(s) == Ok::<nat, ParseError>(track@),
        Err(e) => parse_spec(s) == Err::<nat, ParseError>(e),
    }
}

/// Digit `i` of the largest track reference, `7N42dgm5tFLK9N8MT7fHC7`, which
/// denotes 2^128 - 1.
pub open spec fn limit_digit(i: int) -> nat {
    if i == 0 {
        7
    } else if i == 1 {
        49
    } else if i == 2 {
        4
    } else if i == 3 {
        2
    } else if i == 4 {
        13
    } else if i == 5 {
        16
    } else if i == 6 {
        22
    } else if i == 7 {
        5
    } else if i == 8 {
        29
    } else if i == 9 {
        41
    } else if i == 10 {
        47
    } else if i == 11 {
        46
    } else if i == 12 {
        9
    } else if i == 13 {
        49
    } else if i == 14 {
        8
    } else if i == 15 {
        48
    } else if i == 16 {
        55
    } else if i == 17 {
        7
    } else if i == 18 {
        15
    } else if i == 19 {
        43
    } else if i == 20 {
        38
    } else {
        7
    }
}

/// The number that the first `k` digits of the largest track reference denote.
pub open spec fn limit_prefix(k: nat) -> nat
    decreases k,
{
    if k == 0 {
        0
    } else {
        62 * limit_prefix((k - 1) as nat) + limit_digit(k - 1)
    }
}

/// The largest track reference denotes the largest 128-bit number.
pub proof fn lemma_limit_value()
    ensures
        limit_prefix(22) == u128::MAX,
{
    assert(limit_prefix(0) == 0);
    assert(limit_prefix(1) == 7);
    assert(limit_prefix(2) == 483);
    assert(limit_prefix(3) == 29950);
    assert(limit_prefix(4) == 1856902);
    assert(limit_prefix(5) == 115127937);
    assert(limit_prefix(6) == 7137932110);
    assert(limit_prefix(7) == 442551790842);
    assert(limit_prefix(8) == 27438211032209);
    assert(limit_prefix(9) == 1701169083996987);
    assert(limit_prefix(10) == 105472483207813235);
    assert(limit_prefix(11) == 6539293958884420617);
    assert(limit_prefix(12) == 405436225450834078300);
    assert(limit_prefix(13) == 25137045977951712854609);
    assert(limit_prefix(14) == 1558496850633006196985807);
    assert(limit_prefix(15) == 96626804739246384213120042);
    assert(limit_prefix(16) == 5990861893833275821213442652);
    assert(limit_prefix(17) == 371433437417663100915233444479);
    assert(limit_prefix(18) == 23028873119895112256744473557705);
    assert(limit_prefix(19) == 1427790133433496959918157360577725);
    assert(limit_prefix(20) == 88522988272876811514925756355818993);
    assert(limit_prefix(21) == 5488425272918362313925396894060777604);
    assert(limit_prefix(22) == 340282366920938463463374607431768211455);
}

/// Appending a digit multiplies the value by 62 and adds the digit.
pub proof fn lemma_value_step(s: Seq<char>, k: int)
    requires
        0 <= k < s.len(),
    ensures
        base62_value(s.take(k + 1)) == 62 * base62_value(s.take(k)) + digit_value(s[k]),
{
    assert(s.take(k + 1).drop_last() =~= s.take(k));
    assert(s.take(k + 1).last() == s[k]);
}

/// How the digits read so far stand against those of the largest reference.
#[derive(Clone, Copy, PartialEq, Eq, Structural)]
enum Standing {
    Below,
    Level,
    Above,
}

/// Whether `standing` tells how `value` stands against `limit`.
spec fn stands(standing: Standing, value: nat, limit: nat) -> bool {
    match standing {
        Standing::Below => value < limit,
        Standing::Level => value == limit,
        Standing::Above => value > limit,
    }
}

fn limit_digit_at(i: usize) -> (d: u8)
    requires
        i < REFERENCE_LEN,
    ensures
        d == limit_digit(i as int),
{
    if i == 0 {
        7
    } else if i == 1 {
        49
    } else if i == 2 {
        4
    } else if i == 3 {
        2
    } else if i == 4 {
        13
    } else if i == 5 {
        16
    } else if i == 6 {
        22
    } else if i == 7 {
        5
    } else if i == 8 {
        29
    } else if i == 9 {
        41
    } else if i == 10 {
        47
    } else if i == 11 {
        46
    } else if i == 12 {
        9
    } else if i == 13 {
        49
    } else if i == 14 {
        8
    } else if i == 15 {
        48
    } else if i == 16 {
        55
    } else if i == 17 {
        7
    } else if i == 18 {
        15
    } else if i == 19 {
        43
    } else if i == 20 {
        38
    } else {
        7
    }
}

/// The value of the digit that the ASCII byte `b` encodes, if it encodes one.
fn digit_of(b: u8) -> (d: Option<u8>)
    requires
        b < 128,
    ensures
        match d {
            Some(v) => is_digit(b as char) && v == digit_value(b as char),
            None => !is_digit(b as char),
        },
{
    if 48 <= b && b <= 57 {
        Some(b - 48)
    } else if 97 <= b && b <= 122 {
        Some(b - 97 + 10)
    } else if 65 <= b && b <= 90 {
        Some(b - 65 + 36)
    } else {
        None
    }
}

/// The error of librespot-core's identifier parsers, which carries nothing.
#[verifier::external_type_specification]
#[verifier::external_body]
pub struct ExSpotifyIdError(librespot::core::spotify_id::SpotifyIdError);

/// `SpotifyId::from_base62` of librespot-core, with the number of the
/// identifier it returns. Stated of track references only: there it reads all
/// 22 digits, most significant first, without overflow, and returns `Ok` with
/// the number they denote. On other strings it may overflow, so none is
/// admitted.
#[verifier::external_body]
fn decode_base62(reference: &str) -> (r: Result<u128, librespot::core::spotify_id::SpotifyIdError>)
    requires
        is_track_reference(reference@),
    ensures
        r is Ok,
        r->Ok_0 == base62_value(reference@),
{
    librespot::core::spotify_id::SpotifyId::from_base62(reference).map(|track| track.id)
}

impl TrackIdentifier {
    /// The 128-bit number of the track.
    pub fn id(&self) -> (id: u128)
        ensures
            id == self@,
    {
        self.id
    }

    /// Parses a track reference.
    ///
    /// Succeeds exactly on the strings of the grammar, with the identifier
    /// whose number the digits denote. Otherwise reports the first defect:
    /// a wrong length, then a character that is no digit, then a value that
    /// does not fit in 128 bits.
    pub fn parse(reference: &str) -> (r: Result<TrackIdentifier, ParseError>)
        ensures
            parsed(reference@, r),
    {
        if reference.unicode_len() != REFERENCE_LEN {
            return Err(ParseError::InvalidLength);
        }
        if !reference.is_ascii() {
            return Err(ParseError::InvalidCharacter);
        }
        let bytes = reference.as_bytes();
        proof {
            vstd::string::is_ascii_spec_bytes(reference);
        }
        let mut standing = Standing::Level;
        let mut i: usize = 0;
        while i < REFERENCE_LEN
            invariant
                i <= REFERENCE_LEN,
                reference@.len() == REFERENCE_LEN,
                bytes@.len() == REFERENCE_LEN,
                forall|j: int| 0 <= j < REFERENCE_LEN ==> bytes@[j] == reference@[j] as u8,
                vstd::utf8::is_ascii_chars(reference@),
                all_digits(reference@.take(i as int)),
                stands(standing, base62_value(reference@.take(i as int)), limit_prefix(i as nat)),
            decreases REFERENCE_LEN - i,
        {
            let b = bytes[i];
            let limit = limit_digit_at(i);
            proof {
                lemma_value_step(reference@, i as int);
                assert(b as char == reference@[i as int]);
            }
            match digit_of(b) {
                None => {
                    return Err(ParseError::InvalidCharacter);
                },
                Some(d) => {
                    if standing == Standing::Level {
                        if d < limit {
                            standing = Standing::Below;
                        } else if d > limit {
                            standing = Standing::Above;
                        }
                    }
                },
            }
            proof {
                assert forall|j: int| 0 <= j < i + 1 implies is_digit(
                    #[trigger] reference@.take(i + 1)[j],
                ) by {
                    if j < i {
                        assert(reference@.take(i as int)[j] == reference@[j]);
                    }
                }
            }
            i = i + 1;
        }
        proof {
            assert(reference@.take(REFERENCE_LEN as int) =~= reference@);
            lemma_limit_value();
        }
        if standing == Standing::Above {
            return Err(ParseError::OutOfRange);
        }
        match decode_base62(reference) {
            Ok(id) => Ok(TrackIdentifier { id }),
            // The decoder fails on nothing but a character that is no digit,
            // and none is left here.
            Err(_) => Err(ParseError::InvalidCharacter),
        }
    }
}

/// Parsing fails exactly on the strings outside the grammar, and on those of
/// the grammar it gives the number that the digits denote.
pub proof fn law_parse_follows_grammar(s: Seq<char>)
    ensures
        is_track_reference(s) <==> parse_spec(s) is Ok,
        is_track_reference(s) ==> parse_spec(s) == Ok::<nat, ParseError>(base62_value(s)),
{
}

/// Parsing a track reference again gives the same identifier: any two results
/// of parsing one string of the grammar are `Ok` and equal.
pub proof fn law_parse_repeats(
    s: Seq<char>,
    first: Result<TrackIdentifier, ParseError>,
    second: Result<TrackIdentifier, ParseError>,
)
    requires
        is_track_reference(s),
        parsed(s, first),
        parsed(s, second),
    ensures
        first is Ok,
        first == second,
{
}

/// Two track references that give the same identifier are the same string:
/// strings of digits of one length that denote one number are equal.
pub proof fn law_references_name_distinct_tracks(a: Seq<char>, b: Seq<char>)
    requires
        a.len() == b.len(),
        all_digits(a),
        all_digits(b),
        base62_value(a) == base62_value(b),
    ensures
        a == b,
    decreases a.len(),
{
    if a.len() == 0 {
        assert(a =~= b);
    } else {
        assert(is_digit(a.last()) && is_digit(b.last()));
        assert(digit_value(a.last()) < 62 && digit_value(b.last()) < 62);
        assert(base62_value(a.drop_last()) == base62_value(b.drop_last()));
        assert(a.last() == b.last());
        assert forall|i: int| 0 <= i < a.drop_last().len() implies is_digit(
            #[trigger] a.drop_last()[i],
        ) by {
            assert(a.drop_last()[i] == a[i]);
        }
        assert forall|i: int| 0 <= i < b.drop_last().len() implies is_digit(
            #[trigger] b.drop_last()[i],
        ) by {
            assert(b.drop_last()[i] == b[i]);
        }
        law_references_name_distinct_tracks(a.drop_last(), b.drop_last());
        assert(a =~= a.drop_last().push(a.last()));
        assert(b =~= b.drop_last().push(b.last()));
    }
}

/// Every identifier fits in 128 bits.
pub proof fn law_identifier_range(track: TrackIdentifier)
    ensures
        track@ <= u128::MAX,
{
}

} // verus!
