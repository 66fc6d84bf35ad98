//! Tests of the two-valued state itself: inversion, names, parsing.

use gateway_signal::{Gateway, Lowered, ParseGatewayError, Raised};

/// Inversion swaps the two states, and twice over is the identity.
#[test]
fn not_swaps_the_states() {
    assert_eq!(Raised.not(), Lowered);
    assert_eq!(Lowered.not(), Raised);
    assert_eq!(Raised.not().not(), Raised);
    assert_eq!(Lowered.not().not(), Lowered);
}

/// Each state's name is the expected text.
#[test]
fn labels_name_the_states() {
    assert_eq!(Raised.label(), "Raised");
    assert_eq!(Lowered.label(), "Lowered");
    assert_eq!(Gateway::parse(Raised.label()), Ok(Raised));
    assert_eq!(Gateway::parse(Lowered.label()), Ok(Lowered));
}

/// The two names parse back to their states; anything else is refused.
#[test]
fn parse_accepts_exactly_the_two_names() {
    assert_eq!(Gateway::parse("Raised"), Ok(Raised));
    assert_eq!(Gateway::parse("Lowered"), Ok(Lowered));
    assert_eq!(Gateway::parse("raised"), Err(ParseGatewayError));
    assert_eq!(Gateway::parse("Raise"), Err(ParseGatewayError));
    assert_eq!(Gateway::parse("RaisedX"), Err(ParseGatewayError));
    assert_eq!(Gateway::parse(""), Err(ParseGatewayError));
}

/// The standard parsing entry point answers as `parse` does.
#[test]
fn from_str_matches_parse() {
    assert_eq!("Raised".parse::<Gateway>(), Ok(Raised));
    assert_eq!("Lowered".parse::<Gateway>(), Ok(Lowered));
    assert_eq!("ajar".parse::<Gateway>(), Err(ParseGatewayError));
}
