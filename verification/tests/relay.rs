use dolos::relay::{define_byron_prefix, era_to_header_variant, header_cbor_to_chainsync, Era};
use pallas::ledger::traverse::probe;

/// A two element array whose first element is the block wrapper tag, which
/// is all of a block that the era probe reads.
fn wrapper(tag: u8) -> Vec<u8> {
    vec![0x82, tag, 0x00]
}

#[test]
fn dijkstra_is_block_wrapper_tag_eight_and_chainsync_header_variant_seven() {
    assert_eq!(era_to_header_variant(Era::Dijkstra), 7);
}

#[test]
fn conway_keeps_wrapper_tag_seven_and_header_variant_six() {
    assert!(matches!(
        probe::block_era(&wrapper(7)),
        probe::Outcome::Matched(pallas::ledger::traverse::Era::Conway)
    ));
    assert_eq!(era_to_header_variant(Era::Conway), 6);
}

#[test]
fn a_wrapper_tag_past_dijkstra_matches_no_era() {
    assert!(matches!(
        probe::block_era(&wrapper(9)),
        probe::Outcome::Inconclusive
    ));
}

#[test]
fn every_era_has_the_envelope_tag_one_below_its_wrapper_tag() {
    let eras = [
        Era::Byron,
        Era::Shelley,
        Era::Allegra,
        Era::Mary,
        Era::Alonzo,
        Era::Babbage,
        Era::Conway,
        Era::Dijkstra,
    ];
    for (i, era) in eras.iter().enumerate() {
        assert_eq!(era_to_header_variant(*era) as usize, i);
    }
}

#[test]
fn only_byron_headers_carry_a_prefix() {
    assert_eq!(define_byron_prefix(Era::Byron, true), Some((0, 0)));
    assert_eq!(define_byron_prefix(Era::Byron, false), Some((1, 0)));
    assert_eq!(define_byron_prefix(Era::Conway, false), None);
}

#[test]
fn bytes_that_are_no_block_are_a_parse_error() {
    assert!(header_cbor_to_chainsync(&[0x82, 0x07, 0x00]).is_err());
    assert!(header_cbor_to_chainsync(&[]).is_err());
}
