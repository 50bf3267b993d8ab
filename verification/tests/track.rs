use dl_spotify::track::{ParseError, TrackIdentifier, REFERENCE_LEN};

fn number_of(reference: &str) -> u128 {
    match TrackIdentifier::parse(reference) {
        Ok(track) => track.id(),
        Err(e) => panic!("{:?} for {:?}", e, reference),
    }
}

#[test]
fn reference_length_is_22() {
    assert_eq!(REFERENCE_LEN, 22);
}

#[test]
fn parse_gives_the_number_the_digits_denote() {
    assert_eq!(
        number_of("6rqhFgbbKwnb9MLmUQDhG6"),
        281363587415969826517075833868007328126
    );
    assert_eq!(
        number_of("4uLU6hMCjMI75M1A2tKUQC"),
        196373991439130863212091700994220317246
    );
    assert_eq!(number_of("6rqhFgbbKwnb9MLmUQDhG6"), 0xd3aca7e43e3b452cbfa9ddd2eab9497e);
}

#[test]
fn parse_reads_each_class_of_digit() {
    assert_eq!(number_of("0000000000000000000000"), 0);
    assert_eq!(number_of("0000000000000000000001"), 1);
    assert_eq!(number_of("000000000000000000000a"), 10);
    assert_eq!(number_of("000000000000000000000A"), 36);
    assert_eq!(number_of("000000000000000000000Z"), 61);
    assert_eq!(number_of("0000000000000000000010"), 62);
}

#[test]
fn parse_accepts_the_largest_reference() {
    assert_eq!(number_of("7N42dgm5tFLK9N8MT7fHC7"), u128::MAX);
    assert_eq!(number_of("7N42dgm5tFLK9N8MT7fHC6"), u128::MAX - 1);
}

#[test]
fn parse_rejects_what_does_not_fit_in_128_bits() {
    assert_eq!(TrackIdentifier::parse("7N42dgm5tFLK9N8MT7fHC8"), Err(ParseError::OutOfRange));
    assert_eq!(TrackIdentifier::parse("7N42dgm5tFLK9N8MT7fHD0"), Err(ParseError::OutOfRange));
    assert_eq!(TrackIdentifier::parse("8000000000000000000000"), Err(ParseError::OutOfRange));
    assert_eq!(TrackIdentifier::parse("ZZZZZZZZZZZZZZZZZZZZZZ"), Err(ParseError::OutOfRange));
}

#[test]
fn parse_rejects_a_wrong_length() {
    assert_eq!(TrackIdentifier::parse(""), Err(ParseError::InvalidLength));
    assert_eq!(TrackIdentifier::parse("abc"), Err(ParseError::InvalidLength));
    assert_eq!(TrackIdentifier::parse("not-a-real-id!"), Err(ParseError::InvalidLength));
    assert_eq!(TrackIdentifier::parse("6rqhFgbbKwnb9MLmUQDhG"), Err(ParseError::InvalidLength));
    assert_eq!(TrackIdentifier::parse("6rqhFgbbKwnb9MLmUQDhG60"), Err(ParseError::InvalidLength));
}

#[test]
fn parse_rejects_a_character_that_is_no_digit() {
    assert_eq!(TrackIdentifier::parse("6rqhFgbbKwnb9MLmUQDhG!"), Err(ParseError::InvalidCharacter));
    assert_eq!(TrackIdentifier::parse("-rqhFgbbKwnb9MLmUQDhG6"), Err(ParseError::InvalidCharacter));
    assert_eq!(TrackIdentifier::parse("6rqhFgbbKw b9MLmUQDhG6"), Err(ParseError::InvalidCharacter));
    assert_eq!(TrackIdentifier::parse("6rqhFgbbKwnb9MLmUQDhG/"), Err(ParseError::InvalidCharacter));
    assert_eq!(TrackIdentifier::parse("6rqhFgbbKwnb9MLmUQDhG:"), Err(ParseError::InvalidCharacter));
    assert_eq!(TrackIdentifier::parse("6rqhFgbbKwnb9MLmUQDhG@"), Err(ParseError::InvalidCharacter));
    assert_eq!(TrackIdentifier::parse("6rqhFgbbKwnb9MLmUQDhG["), Err(ParseError::InvalidCharacter));
    assert_eq!(TrackIdentifier::parse("6rqhFgbbKwnb9MLmUQDhG`"), Err(ParseError::InvalidCharacter));
    assert_eq!(TrackIdentifier::parse("6rqhFgbbKwnb9MLmUQDhG{"), Err(ParseError::InvalidCharacter));
}

#[test]
fn parse_counts_characters_not_bytes() {
    // 22 characters, one of them two bytes long.
    assert_eq!(TrackIdentifier::parse("6rqhFgbbKwnb9MLmUQDhG\u{e9}"), Err(ParseError::InvalidCharacter));
    // 22 bytes, but only 21 characters.
    assert_eq!(TrackIdentifier::parse("6rqhFgbbKwnb9MLmUQDh\u{e9}"), Err(ParseError::InvalidLength));
}

#[test]
fn parse_reports_the_first_defect() {
    // Too long and with a bad character: the length is reported.
    assert_eq!(TrackIdentifier::parse("ZZZZZZZZZZZZZZZZZZZZZZ!"), Err(ParseError::InvalidLength));
    // Of the right length, too large but for the bad character: the character is reported.
    assert_eq!(TrackIdentifier::parse("ZZZZZZZZZZZZZZZZZZZZZ!"), Err(ParseError::InvalidCharacter));
}

#[test]
fn parsing_again_gives_the_same_identifier() {
    let first = TrackIdentifier::parse("6rqhFgbbKwnb9MLmUQDhG6");
    let second = TrackIdentifier::parse("6rqhFgbbKwnb9MLmUQDhG6");
    assert!(first.is_ok());
    assert_eq!(first, second);
    let copy = String::from("6rqhFgbbKwnb9MLmUQDhG6");
    assert_eq!(TrackIdentifier::parse(&copy), first);
}

#[test]
fn different_references_give_different_identifiers() {
    assert_ne!(
        TrackIdentifier::parse("6rqhFgbbKwnb9MLmUQDhG6"),
        TrackIdentifier::parse("6rqhFgbbKwnb9MLmUQDhG7")
    );
    // Case matters: `a` is 10 and `A` is 36.
    assert_ne!(
        TrackIdentifier::parse("6rqhFgbbKwnb9MLmUQDhGa"),
        TrackIdentifier::parse("6rqhFgbbKwnb9MLmUQDhGA")
    );
}
