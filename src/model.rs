//! The shape of one decoded NFSe query response, nested as in the XML
//! document. Each struct stands for one element; the names follow the
//! element names of the wire format.
use vstd::prelude::*;

verus! {

/// The whole response document (`ConsultarNfseResposta`).
#[derive(Debug, Clone, PartialEq)]
pub struct ConsultarNfseResposta {
    /// `ListaNfse`.
    pub lista_nfse: ListaNfse,
}

/// The list of invoice envelopes (`ListaNfse`); it may be empty.
#[derive(Debug, Clone, PartialEq)]
pub struct ListaNfse {
    /// Each `CompNfse` element, in document order.
    pub comp_nfse: Vec<CompNfse>,
}

/// One envelope (`CompNfse`), holding exactly one invoice.
#[derive(Debug, Clone, PartialEq)]
pub struct CompNfse {
    /// `Nfse`.
    pub nfse: Nfse,
}

/// One invoice (`Nfse`), holding exactly one detail record.
#[derive(Debug, Clone, PartialEq)]
pub struct Nfse {
    /// `InfNfse`.
    pub inf_nfse: InfNfse,
}

/// The detail record of an invoice (`InfNfse`): what is shown to the operator.
#[derive(Debug, Clone, PartialEq)]
pub struct InfNfse {
    /// `Numero`: the invoice number.
    pub numero: u32,
    /// `DataEmissao`: the issue date, as written in the document.
    pub data_emissao: String,
    /// `Servico`.
    pub servico: Servico,
    /// `PrestadorServico`: the issuer.
    pub prestador_servico: Prestador,
    /// `TomadorServico`: the recipient.
    pub tomador_servico: Tomador,
}

/// The service rendered (`Servico`).
#[derive(Debug, Clone, PartialEq)]
pub struct Servico {
    /// `Valores`.
    pub valores: Valores,
    /// `Discriminacao`: free-text description.
    pub discriminacao: String,
}

/// The amounts of a service (`Valores`).
#[derive(Debug, Clone, PartialEq)]
pub struct Valores {
    /// `ValorServicos`: the monetary value, kept losslessly as the bit
    /// pattern of the IEEE-754 single-precision number that was decoded.
    pub valor_servicos_bits: u32,
}

/// The issuer of the invoice (`PrestadorServico`).
#[derive(Debug, Clone, PartialEq)]
pub struct Prestador {
    /// `RazaoSocial`: legal name.
    pub razao_social: String,
    /// `IdentificacaoPrestador`.
    pub identificacao_prestador: IdentificacaoPrestador,
}

/// The issuer's identification (`IdentificacaoPrestador`).
#[derive(Debug, Clone, PartialEq)]
pub struct IdentificacaoPrestador {
    /// `Cnpj`: company tax id.
    pub cnpj: String,
}

/// The recipient of the service (`TomadorServico`).
#[derive(Debug, Clone, PartialEq)]
pub struct Tomador {
    /// `RazaoSocial`: legal name.
    pub razao_social: String,
    /// `IdentificacaoTomador`.
    pub identificacao_tomador: IdentificacaoTomador,
}

/// The recipient's identification (`IdentificacaoTomador`).
#[derive(Debug, Clone, PartialEq)]
pub struct IdentificacaoTomador {
    /// The tax id container, wire-named `CpfCnpj`.
    pub cpf_cnpj: CpfCnpj,
}

/// A tax id (`CpfCnpj`): a company id (`Cnpj`), an individual id (`Cpf`),
/// both or neither. Nothing here enforces that exactly one is present.
#[derive(Debug, Clone, PartialEq)]
pub struct CpfCnpj {
    /// `Cnpj`, when present.
    pub cnpj: Option<String>,
    /// `Cpf`, when present.
    pub cpf: Option<String>,
}

/// The text held by an optional field, as seen by a caller of an accessor.
pub open spec fn same_text(r: Option<&str>, f: Option<String>) -> bool {
    match (r, f) {
        (Some(a), Some(b)) => a@ == b@,
        (None, None) => true,
        _ => false,
    }
}

impl CpfCnpj {
    /// The company tax id, absent exactly when the document had no `Cnpj`.
    pub fn cnpj(&self) -> (r: Option<&str>)
        ensures
            same_text(r, self.cnpj),
    {
        match &self.cnpj {
            Some(s) => Some(s.as_str()),
            None => None,
        }
    }

    /// The individual tax id, absent exactly when the document had no `Cpf`.
    pub fn cpf(&self) -> (r: Option<&str>)
        ensures
            same_text(r, self.cpf),
    {
        match &self.cpf {
            Some(s) => Some(s.as_str()),
            None => None,
        }
    }
}

/// The detail records of a sequence of envelopes, in order.
pub open spec fn details_of(envelopes: Seq<CompNfse>) -> Seq<InfNfse> {
    envelopes.map_values(|c: CompNfse| c.nfse.inf_nfse)
}

impl ConsultarNfseResposta {
    /// The detail records of the document: one per envelope, in document order.
    pub open spec fn records(&self) -> Seq<InfNfse> {
        details_of(self.lista_nfse.comp_nfse@)
    }

    /// Unwraps every envelope, yielding its detail record, in document order.
    pub fn into_records(self) -> (r: Vec<InfNfse>)
        ensures
            r@ == self.records(),
            r@.len() == self.lista_nfse.comp_nfse@.len(),
    {
        let ghost all = self.lista_nfse.comp_nfse@;
        let mut rest = self.lista_nfse.comp_nfse;
        let mut out: Vec<InfNfse> = Vec::new();
        while rest.len() > 0
            invariant
                out@ + details_of(rest@) == details_of(all),
            decreases rest.len(),
        {
            let ghost before = rest@;
            let c = rest.remove(0);
            proof {
                assert(before == seq![c].add(rest@));
                assert(details_of(before) =~= seq![c.nfse.inf_nfse] + details_of(rest@));
                assert(out@.push(c.nfse.inf_nfse) + details_of(rest@) =~= out@ + details_of(before));
            }
            out.push(c.nfse.inf_nfse);
        }
        proof {
            assert(details_of(rest@) =~= Seq::<InfNfse>::empty());
            assert(out@ + details_of(rest@) =~= out@);
        }
        out
    }
}

} // verus!
