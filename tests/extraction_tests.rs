use nfse_reader::extraction::{decoded, strip_bom, ExtractionError, BOM};
use nfse_reader::model::{ConsultarNfseResposta, ListaNfse};

fn empty_document() -> ConsultarNfseResposta {
    ConsultarNfseResposta { lista_nfse: ListaNfse { comp_nfse: Vec::new() } }
}

#[test]
fn bom_is_removed() {
    assert_eq!(strip_bom("\u{feff}<ConsultarNfseResposta/>"), "<ConsultarNfseResposta/>");
}

#[test]
fn text_without_bom_is_kept() {
    assert_eq!(strip_bom("<a>x</a>"), "<a>x</a>");
    assert_eq!(strip_bom(""), "");
}

#[test]
fn document_with_bom_decodes_from_same_text() {
    let plain = "<ConsultarNfseResposta><ListaNfse/></ConsultarNfseResposta>";
    let marked = format!("{}{}", BOM, plain);
    assert_eq!(strip_bom(&marked), strip_bom(plain));
}

#[test]
fn only_one_leading_bom_is_removed() {
    assert_eq!(strip_bom("\u{feff}\u{feff}<a/>"), "\u{feff}<a/>");
    assert_eq!(strip_bom("<a>\u{feff}</a>"), "<a>\u{feff}</a>");
}

#[test]
fn decoded_document_passes_through() {
    assert_eq!(decoded("a.xml", Ok(empty_document())), Ok(empty_document()));
}

#[test]
fn decoder_failure_is_decode_error() {
    let r = decoded("dir/bad.xml", Err("missing field `ValorServicos`".to_string()));
    assert_eq!(
        r,
        Err(ExtractionError::Decode {
            path: "dir/bad.xml".to_string(),
            cause: "missing field `ValorServicos`".to_string(),
        })
    );
}

#[test]
fn open_error_message() {
    let e = ExtractionError::Open { path: "x.xml".to_string(), cause: "not found".to_string() };
    assert_eq!(e.message(), "Erro ao abrir o arquivo \"x.xml\": not found");
}

#[test]
fn read_error_message() {
    let e = ExtractionError::Read { cause: "invalid UTF-8".to_string() };
    assert_eq!(e.message(), "Erro ao ler o arquivo: invalid UTF-8");
}

#[test]
fn decode_error_message() {
    let e = ExtractionError::Decode { path: "y.xml".to_string(), cause: "bad".to_string() };
    assert_eq!(e.message(), "Erro ao processar o XML em \"y.xml\": bad");
}
