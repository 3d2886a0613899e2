//! Proof artefacts and the form in which they travel.
//!
//! An artefact is three byte strings: the proof, the output that the
//! proof makes public, and the identity of the program that was proved.
//! For transport each is written as `0x` and lower-case hexadecimal
//! digits.

use vstd::prelude::*;
use crate::classifier::{Category, ClassificationInput};
use crate::hexcode::{
    HexError, decode_prefixed, encode_prefixed, lemma_prefixed_round_trip, prefixed_decoded,
    prefixed_hex,
};
use crate::wire::{
    WireError, decode_journal, journal_decoded, le_bytes, lemma_journal_round_trip, words_as_bytes,
    words_to_le_bytes,
};

verus! {

/// The bundle that one proving request produces.
#[derive(Clone, Debug, PartialEq, Eq)]
pub struct ProofArtifact {
    /// The proof, as the proving engine encoded it.
    pub proof: Vec<u8>,
    /// The committed public output.
    pub journal: Vec<u8>,
    /// The fingerprint of the proved program.
    pub image_id: Vec<u8>,
}

/// What an artefact holds.
pub ghost struct ArtifactView {
    pub proof: Seq<u8>,
    pub journal: Seq<u8>,
    pub image_id: Seq<u8>,
}

/// The transport form of an artefact.
#[derive(Clone, Debug, PartialEq, Eq)]
pub struct ProofOutput {
    pub proof: String,
    pub pub_inputs: String,
    pub image_id: String,
}

/// What a transport form holds.
pub ghost struct OutputView {
    pub proof: Seq<char>,
    pub pub_inputs: Seq<char>,
    pub image_id: Seq<char>,
}

/// One of the three parts of an artefact.
#[derive(Clone, Copy, Debug, PartialEq, Eq, Structural)]
pub enum ArtifactField {
    Proof,
    PubInputs,
    ImageId,
}

/// A transport form that is no artefact: the first field, in the order
/// proof, public output, identity, that does not decode, and why.
#[derive(Clone, Copy, Debug, PartialEq, Eq, Structural)]
pub struct ArtifactError {
    pub field: ArtifactField,
    pub cause: HexError,
}

/// Why a proved run cannot be announced.
#[derive(Clone, Copy, Debug, PartialEq, Eq, Structural)]
pub enum AnnounceError {
    /// The public output does not read as a value.
    Journal(WireError),
    /// The public output is a value that names no category.
    UnknownCategory { index: u32 },
}

impl View for ProofArtifact {
    type V = ArtifactView;

    open spec fn view(&self) -> ArtifactView {
        ArtifactView { proof: self.proof@, journal: self.journal@, image_id: self.image_id@ }
    }
}

impl View for ProofOutput {
    type V = OutputView;

    open spec fn view(&self) -> OutputView {
        OutputView {
            proof: self.proof@,
            pub_inputs: self.pub_inputs@,
            image_id: self.image_id@,
        }
    }
}

/// The transport form of an artefact: each part in its marked
/// hexadecimal text.
pub open spec fn encoded(artifact: ArtifactView) -> OutputView {
    OutputView {
        proof: prefixed_hex(artifact.proof),
        pub_inputs: prefixed_hex(artifact.journal),
        image_id: prefixed_hex(artifact.image_id),
    }
}

/// The error that a field's text gives rise to.
pub open spec fn field_error(field: ArtifactField, cause: HexError) -> Result<
    ArtifactView,
    ArtifactError,
> {
    Err(ArtifactError { field, cause })
}

/// The artefact that a transport form writes, or the first field that
/// does not decode.
pub open spec fn decoded(output: OutputView) -> Result<ArtifactView, ArtifactError> {
    match prefixed_decoded(output.proof) {
        Err(cause) => field_error(ArtifactField::Proof, cause),
        Ok(proof) => match prefixed_decoded(output.pub_inputs) {
            Err(cause) => field_error(ArtifactField::PubInputs, cause),
            Ok(journal) => match prefixed_decoded(output.image_id) {
                Err(cause) => field_error(ArtifactField::ImageId, cause),
                Ok(image_id) => Ok(ArtifactView { proof, journal, image_id }),
            },
        },
    }
}

/// The sentence that announces a category.
pub open spec fn message_text(species: Category) -> Seq<char> {
    "This is the "@ + species.label() + " flower, and I can prove it!"@
}

/// What a public output announces: the category whose index it commits.
pub open spec fn announced(journal: Seq<u8>) -> Result<Category, AnnounceError> {
    match journal_decoded(journal) {
        Err(e) => Err(AnnounceError::Journal(e)),
        Ok(index) => match Category::with_index(index) {
            Some(species) => Ok(species),
            None => Err(AnnounceError::UnknownCategory { index }),
        },
    }
}

/// What is said of a public output: the sentence for the category that
/// it announces.
pub open spec fn announcement_text(journal: Seq<u8>) -> Result<Seq<char>, AnnounceError> {
    match announced(journal) {
        Ok(species) => Ok(message_text(species)),
        Err(e) => Err(e),
    }
}

/// Decoding the transport form of an artefact gives back that artefact,
/// byte for byte in each part.
pub proof fn lemma_transport_round_trip(artifact: ArtifactView)
    ensures
        decoded(encoded(artifact)) == Ok::<ArtifactView, ArtifactError>(artifact),
{
    lemma_prefixed_round_trip(artifact.proof);
    lemma_prefixed_round_trip(artifact.journal);
    lemma_prefixed_round_trip(artifact.image_id);
}

/// The output that the proved program commits for measurements, one
/// word written as bytes, announces the category that the tree assigns
/// to them.
pub proof fn lemma_committed_output_announces_category(input: ClassificationInput)
    ensures
        announced(words_as_bytes(seq![input.category()])) matches Ok(species) && species.index()
            == input.category(),
{
    let bytes = words_as_bytes(seq![input.category()]);
    lemma_journal_round_trip(input.category());
    assert(bytes =~= le_bytes(input.category()));
}

impl ProofArtifact {
    /// Bundles an encoded proof, its public output and the identity of
    /// the proved program. The identity is given in words and kept as
    /// their bytes, each word's low byte first.
    pub fn new(proof: Vec<u8>, journal: Vec<u8>, image_id: &[u32]) -> (artifact: ProofArtifact)
        ensures
            artifact@ == (ArtifactView {
                proof: proof@,
                journal: journal@,
                image_id: words_as_bytes(image_id@),
            }),
    {
        ProofArtifact { proof, journal, image_id: words_to_le_bytes(image_id) }
    }

    /// Writes the artefact in its transport form.
    pub fn encode(&self) -> (output: ProofOutput)
        ensures
            output@ == encoded(self@),
    {
        ProofOutput {
            proof: encode_prefixed(self.proof.as_slice()),
            pub_inputs: encode_prefixed(self.journal.as_slice()),
            image_id: encode_prefixed(self.image_id.as_slice()),
        }
    }

    /// The category that the artefact's public output announces.
    pub fn category(&self) -> (species: Result<Category, AnnounceError>)
        ensures
            species == announced(self@.journal),
    {
        match decode_journal(self.journal.as_slice()) {
            Err(e) => Err(AnnounceError::Journal(e)),
            Ok(index) => match Category::from_index(index) {
                Some(species) => Ok(species),
                None => Err(AnnounceError::UnknownCategory { index }),
            },
        }
    }

    /// The sentence that announces what the artefact proves.
    pub fn announcement(&self) -> (message: Result<String, AnnounceError>)
        ensures
            match message {
                Ok(text) => announcement_text(self@.journal) == Ok::<Seq<char>, AnnounceError>(
                    text@,
                ),
                Err(e) => announcement_text(self@.journal) == Err::<Seq<char>, AnnounceError>(e),
            },
    {
        match self.category() {
            Ok(species) => Ok(prediction_message(species)),
            Err(e) => Err(e),
        }
    }
}

impl ProofOutput {
    /// Reads the artefact back from its transport form.
    pub fn decode(&self) -> (artifact: Result<ProofArtifact, ArtifactError>)
        ensures
            match artifact {
                Ok(a) => decoded(self@) == Ok::<ArtifactView, ArtifactError>(a@),
                Err(e) => decoded(self@) == Err::<ArtifactView, ArtifactError>(e),
            },
    {
        let proof = match decode_prefixed(self.proof.as_str()) {
            Ok(bytes) => bytes,
            Err(cause) => {
                return Err(ArtifactError { field: ArtifactField::Proof, cause });
            },
        };
        let journal = match decode_prefixed(self.pub_inputs.as_str()) {
            Ok(bytes) => bytes,
            Err(cause) => {
                return Err(ArtifactError { field: ArtifactField::PubInputs, cause });
            },
        };
        let image_id = match decode_prefixed(self.image_id.as_str()) {
            Ok(bytes) => bytes,
            Err(cause) => {
                return Err(ArtifactError { field: ArtifactField::ImageId, cause });
            },
        };
        Ok(ProofArtifact { proof, journal, image_id })
    }
}

/// The sentence that announces a category.
pub fn prediction_message(species: Category) -> (message: String)
    ensures
        message@ == message_text(species),
{
    let opening = String::from_str("This is the ");
    let named = opening.concat(species.name());
    named.concat(" flower, and I can prove it!")
}

} // verus!
