//! The parts of reading one invoice file that are pure computation: removing
//! a leading byte-order mark before decoding, and the errors a parse reports.
use vstd::prelude::*;
use vstd::string::*;
use crate::model::ConsultarNfseResposta;

verus! {

/// The byte-order mark, U+FEFF.
pub const BOM: char = '\u{feff}';

/// `s` with one leading byte-order mark removed, if it starts with one.
pub open spec fn without_bom(s: Seq<char>) -> Seq<char> {
    if s.len() > 0 && s[0] == BOM {
        s.drop_first()
    } else {
        s
    }
}

/// Why parsing one file failed.
#[derive(Debug, Clone, PartialEq)]
pub enum ExtractionError {
    /// The file could not be opened (missing, not permitted, not a file).
    Open { path: String, cause: String },
    /// The content could not be read as text.
    Read { cause: String },
    /// The text is not well-formed XML, or does not have the invoice shape.
    Decode { path: String, cause: String },
}

/// The human-readable text of an error.
pub open spec fn error_text(e: ExtractionError) -> Seq<char> {
    match e {
        ExtractionError::Open { path, cause } =>
            "Erro ao abrir o arquivo \""@ + path@ + "\": "@ + cause@,
        ExtractionError::Read { cause } => "Erro ao ler o arquivo: "@ + cause@,
        ExtractionError::Decode { path, cause } =>
            "Erro ao processar o XML em \""@ + path@ + "\": "@ + cause@,
    }
}

impl ExtractionError {
    /// The message shown to the operator, naming the file (where known) and the cause.
    pub fn message(&self) -> (r: String)
        ensures
            r@ == error_text(*self),
    {
        match self {
            ExtractionError::Open { path, cause } => {
                let mut m = String::from_str("Erro ao abrir o arquivo \"");
                m.append(path.as_str());
                m.append("\": ");
                m.append(cause.as_str());
                m
            },
            ExtractionError::Read { cause } => {
                let mut m = String::from_str("Erro ao ler o arquivo: ");
                m.append(cause.as_str());
                m
            },
            ExtractionError::Decode { path, cause } => {
                let mut m = String::from_str("Erro ao processar o XML em \"");
                m.append(path.as_str());
                m.append("\": ");
                m.append(cause.as_str());
                m
            },
        }
    }
}

/// The text to decode: `text` without a single leading byte-order mark.
/// A mark anywhere else, or a second one, is kept.
pub fn strip_bom(text: &str) -> (r: &str)
    ensures
        r@ == without_bom(text@),
{
    let n = text.unicode_len();
    if n > 0 && text.get_char(0) == BOM {
        text.substring_char(1, n)
    } else {
        text
    }
}

/// A document with a leading byte-order mark is decoded from the same text
/// as the document without it.
pub proof fn lemma_bom_is_transparent(s: Seq<char>)
    requires
        !(s.len() > 0 && s[0] == BOM),
    ensures
        without_bom(seq![BOM] + s) == without_bom(s),
        without_bom(s) == s,
{
    assert((seq![BOM] + s).drop_first() =~= s);
}

/// The result of a parse, given what the decoder made of the text of the
/// file at `path`: the decoded document, or a `Decode` error carrying the
/// decoder's diagnostic.
pub fn decoded(path: &str, outcome: Result<ConsultarNfseResposta, String>) -> (r: Result<
    ConsultarNfseResposta,
    ExtractionError,
>)
    ensures
        match outcome {
            Ok(doc) => r == Ok::<ConsultarNfseResposta, ExtractionError>(doc),
            Err(diagnostic) => r matches Err(ExtractionError::Decode { path: p, cause: c })
                && p@ == path@ && c == diagnostic,
        },
{
    match outcome {
        Ok(doc) => Ok(doc),
        Err(cause) => Err(ExtractionError::Decode { path: String::from_str(path), cause }),
    }
}

} // verus!
