use vstd::prelude::*;

verus! {

/// The eras of the chain, in order.
#[derive(Debug, Clone, Copy, PartialEq, Eq, Structural)]
pub enum Era {
    Byron,
    Shelley,
    Allegra,
    Mary,
    Alonzo,
    Babbage,
    Conway,
    Dijkstra,
}

/// The chainsync header envelope tag of an era. The block wrapper tag
/// counts Byron twice, so from Shelley on the envelope tag is one lower than
/// the wrapper tag: Dijkstra is wrapper tag 8 and envelope tag 7.
pub open spec fn header_variant(era: Era) -> u8 {
    match era {
        Era::Byron => 0,
        Era::Shelley => 1,
        Era::Allegra => 2,
        Era::Mary => 3,
        Era::Alonzo => 4,
        Era::Babbage => 5,
        Era::Conway => 6,
        Era::Dijkstra => 7,
    }
}

/// The chainsync header envelope tag of an era.
pub fn era_to_header_variant(era: Era) -> (v: u8)
    ensures
        v == header_variant(era),
{
    match era {
        Era::Byron => 0,
        Era::Shelley => 1,
        Era::Allegra => 2,
        Era::Mary => 3,
        Era::Alonzo => 4,
        Era::Babbage => 5,
        Era::Conway => 6,
        Era::Dijkstra => 7,
    }
}

/// The Byron prefix of a chainsync header: `(0, 0)` for an epoch boundary
/// block, `(1, 0)` for any other Byron block, and none after Byron.
pub open spec fn byron_prefix(era: Era, epoch_boundary: bool) -> Option<(u8, u64)> {
    if era == Era::Byron {
        if epoch_boundary {
            Some((0, 0))
        } else {
            Some((1, 0))
        }
    } else {
        None
    }
}

/// The Byron prefix of a chainsync header.
pub fn define_byron_prefix(era: Era, epoch_boundary: bool) -> (r: Option<(u8, u64)>)
    ensures
        r == byron_prefix(era, epoch_boundary),
{
    match era {
        Era::Byron => {
            if epoch_boundary {
                Some((0, 0))
            } else {
                Some((1, 0))
            }
        },
        _ => None,
    }
}

/// Header envelope tags count the eras in order from zero: Byron is tag 0
/// and each era is one tag above the era before it, so no two eras share a
/// tag.
pub proof fn lemma_each_era_is_one_tag_above_the_one_before()
    ensures
        header_variant(Era::Byron) == 0,
        header_variant(Era::Shelley) == header_variant(Era::Byron) + 1,
        header_variant(Era::Allegra) == header_variant(Era::Shelley) + 1,
        header_variant(Era::Mary) == header_variant(Era::Allegra) + 1,
        header_variant(Era::Alonzo) == header_variant(Era::Mary) + 1,
        header_variant(Era::Babbage) == header_variant(Era::Alonzo) + 1,
        header_variant(Era::Conway) == header_variant(Era::Babbage) + 1,
        header_variant(Era::Dijkstra) == header_variant(Era::Conway) + 1,
        forall|a: Era, b: Era| header_variant(a) == header_variant(b) ==> a == b,
{
}

/// Only a Byron header carries a prefix, and its first number tells an
/// epoch boundary block (0) from any other block (1).
pub proof fn lemma_only_byron_headers_carry_a_prefix(era: Era, epoch_boundary: bool)
    ensures
        byron_prefix(era, epoch_boundary) is Some <==> era == Era::Byron,
        era == Era::Byron ==> byron_prefix(era, epoch_boundary) == Some(
            (if epoch_boundary { 0u8 } else { 1u8 }, 0u64),
        ),
{
}

/// What `pallas` decodes of a block's bytes: its era, whether its header is
/// that of an epoch boundary block, and the header's bytes; `None` when the
/// bytes are not a block of an era this library names.
pub uninterp spec fn decoded_header(block: Seq<u8>) -> Option<(Era, bool, Seq<u8>)>;

/// `pallas::ledger::traverse::MultiEraBlock::decode`, then `era()`,
/// `header().as_eb()` and `header().cbor()`. Where the bytes are not a block
/// it hands back the decoder's message, whose wording is left unsaid here.
#[verifier::external_body]
fn decode_header(block: &[u8]) -> (r: Result<(Era, bool, Vec<u8>), String>)
    ensures
        match r {
            Ok((era, eb, header)) => decoded_header(block@) == Some((era, eb, header@)),
            Err(_) => decoded_header(block@) is None,
        },
{
    let block = pallas::ledger::traverse::MultiEraBlock::decode(block).map_err(|e| e.to_string())?;
    let era = match block.era() {
        pallas::ledger::traverse::Era::Byron => Era::Byron,
        pallas::ledger::traverse::Era::Shelley => Era::Shelley,
        pallas::ledger::traverse::Era::Allegra => Era::Allegra,
        pallas::ledger::traverse::Era::Mary => Era::Mary,
        pallas::ledger::traverse::Era::Alonzo => Era::Alonzo,
        pallas::ledger::traverse::Era::Babbage => Era::Babbage,
        pallas::ledger::traverse::Era::Conway => Era::Conway,
        other => return Err(format!("unknown era {other:?}")),
    };
    Ok((era, block.header().as_eb().is_some(), block.header().cbor().to_vec()))
}

/// A block header as chainsync carries it: the era's envelope tag, the Byron
/// prefix, and the header's bytes.
#[derive(Debug, PartialEq)]
pub struct HeaderContent {
    pub variant: u8,
    pub byron_prefix: Option<(u8, u64)>,
    pub cbor: Vec<u8>,
}

/// Bytes that do not decode as a block, with the decoder's message.
#[derive(Debug, PartialEq)]
pub struct ParseError(pub String);

/// The chainsync header of a block, or the decoder's message when its bytes
/// are not a block.
pub fn header_cbor_to_chainsync(block: &[u8]) -> (r: Result<HeaderContent, ParseError>)
    ensures
        r is Ok <==> decoded_header(block@) is Some,
        r matches Ok(h) ==> decoded_header(block@) matches Some((era, eb, header)) && h.variant
            == header_variant(era) && h.byron_prefix == byron_prefix(era, eb) && h.cbor@ == header,
{
    match decode_header(block) {
        Ok((era, eb, header)) => Ok(
            HeaderContent {
                variant: era_to_header_variant(era),
                byron_prefix: define_byron_prefix(era, eb),
                cbor: header,
            },
        ),
        Err(message) => Err(ParseError(message)),
    }
}

} // verus!
