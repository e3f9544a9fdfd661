use nfse_reader::model::{
    CompNfse, ConsultarNfseResposta, CpfCnpj, IdentificacaoPrestador, IdentificacaoTomador,
    InfNfse, ListaNfse, Nfse, Prestador, Servico, Tomador, Valores,
};

fn detail(numero: u32, cnpj: Option<&str>, cpf: Option<&str>) -> InfNfse {
    InfNfse {
        numero,
        data_emissao: "2024-03-01T10:00:00".to_string(),
        servico: Servico {
            valores: Valores { valor_servicos_bits: 1500.5f32.to_bits() },
            discriminacao: format!("Servico {}", numero),
        },
        prestador_servico: Prestador {
            razao_social: "Prestadora Ltda".to_string(),
            identificacao_prestador: IdentificacaoPrestador { cnpj: "11222333000181".to_string() },
        },
        tomador_servico: Tomador {
            razao_social: "Cliente".to_string(),
            identificacao_tomador: IdentificacaoTomador {
                cpf_cnpj: CpfCnpj {
                    cnpj: cnpj.map(|s| s.to_string()),
                    cpf: cpf.map(|s| s.to_string()),
                },
            },
        },
    }
}

fn document(numbers: &[u32]) -> ConsultarNfseResposta {
    ConsultarNfseResposta {
        lista_nfse: ListaNfse {
            comp_nfse: numbers
                .iter()
                .map(|n| CompNfse { nfse: Nfse { inf_nfse: detail(*n, Some("1"), None) } })
                .collect(),
        },
    }
}

#[test]
fn records_of_empty_document() {
    assert!(document(&[]).into_records().is_empty());
}

#[test]
fn records_one_per_envelope_in_order() {
    let records = document(&[7, 3, 9]).into_records();
    let numbers: Vec<u32> = records.iter().map(|r| r.numero).collect();
    assert_eq!(numbers, vec![7, 3, 9]);
    assert_eq!(records[1], detail(3, Some("1"), None));
}

#[test]
fn records_keep_every_field() {
    let records = document(&[42]).into_records();
    assert_eq!(records.len(), 1);
    let r = &records[0];
    assert_eq!(r.data_emissao, "2024-03-01T10:00:00");
    assert_eq!(r.servico.discriminacao, "Servico 42");
    assert_eq!(f32::from_bits(r.servico.valores.valor_servicos_bits), 1500.5);
    assert_eq!(r.prestador_servico.identificacao_prestador.cnpj, "11222333000181");
}

#[test]
fn tax_id_cnpj_only() {
    let t = CpfCnpj { cnpj: Some("11222333000181".to_string()), cpf: None };
    assert_eq!(t.cnpj(), Some("11222333000181"));
    assert_eq!(t.cpf(), None);
}

#[test]
fn tax_id_cpf_only() {
    let t = CpfCnpj { cnpj: None, cpf: Some("12345678909".to_string()) };
    assert_eq!(t.cnpj(), None);
    assert_eq!(t.cpf(), Some("12345678909"));
}

#[test]
fn tax_id_both_and_neither() {
    let both = CpfCnpj { cnpj: Some("1".to_string()), cpf: Some("2".to_string()) };
    assert_eq!(both.cnpj(), Some("1"));
    assert_eq!(both.cpf(), Some("2"));
    let neither = CpfCnpj { cnpj: None, cpf: None };
    assert_eq!(neither.cnpj(), None);
    assert_eq!(neither.cpf(), None);
}

#[test]
fn equal_documents_give_equal_records() {
    let first = document(&[1, 2]).into_records();
    let second = document(&[1, 2]).into_records();
    assert_eq!(first, second);
}
