//! Records exchanged with the user interface.

use vstd::prelude::*;

verus! {

/// A login principal as the accounts table holds it.
#[derive(Debug, Clone)]
pub struct Usuario {
    pub id: i64,
    pub nome: String,
    pub email: String,
    /// Read to check a password; never part of an outward record.
    pub senha_hash: String,
    pub cargo: Option<String>,
    pub departamento: Option<String>,
    pub avatar: Option<String>,
    pub ativo: bool,
    pub permissoes: serde_json::Value,
    pub ultimo_acesso: Option<String>,
    pub created_at: String,
    pub updated_at: String,
}

/// The outward projection of an account: everything but the password hash.
#[derive(Debug, Clone)]
pub struct UsuarioPublico {
    pub id: i64,
    pub nome: String,
    pub email: String,
    pub cargo: Option<String>,
    pub departamento: Option<String>,
    pub avatar: Option<String>,
    pub permissoes: serde_json::Value,
}

/// The outward projection of an account is its fields, the hash left out.
pub open spec fn projects(p: UsuarioPublico, u: Usuario) -> bool {
    &&& p.id == u.id
    &&& p.nome == u.nome
    &&& p.email == u.email
    &&& p.cargo == u.cargo
    &&& p.departamento == u.departamento
    &&& p.avatar == u.avatar
    &&& p.permissoes == u.permissoes
}

impl UsuarioPublico {
    /// The outward projection of `u`.
    pub fn from_account(u: Usuario) -> (r: UsuarioPublico)
        ensures
            projects(r, u),
    {
        UsuarioPublico {
            id: u.id,
            nome: u.nome,
            email: u.email,
            cargo: u.cargo,
            departamento: u.departamento,
            avatar: u.avatar,
            permissoes: u.permissoes,
        }
    }
}

/// Credentials presented at login.
#[derive(Debug, Clone, PartialEq, Eq)]
pub struct LoginRequest {
    pub email: String,
    pub senha: String,
}

/// The answer to a login: a token and the account on success, a message on
/// failure.
#[derive(Debug, Clone)]
pub struct LoginResponse {
    pub success: bool,
    pub token: Option<String>,
    pub usuario: Option<UsuarioPublico>,
    pub message: Option<String>,
}

/// The organization record.
#[derive(Debug, Clone, PartialEq, Eq)]
pub struct Empresa {
    pub id: i64,
    pub razao_social: String,
    pub nome_fantasia: Option<String>,
    pub cnpj: Option<String>,
    pub inscricao_estadual: Option<String>,
    pub inscricao_municipal: Option<String>,
    pub telefone: Option<String>,
    pub email: Option<String>,
    pub cep: Option<String>,
    pub endereco: Option<String>,
    pub numero: Option<String>,
    pub complemento: Option<String>,
    pub bairro: Option<String>,
    pub cidade: Option<String>,
    pub estado: Option<String>,
    pub logo_path: Option<String>,
}

/// A supplier.
#[derive(Debug, Clone, PartialEq, Eq)]
pub struct Fornecedor {
    pub id: i64,
    pub nome: String,
    pub razao_social: Option<String>,
    pub nome_fantasia: Option<String>,
    pub cnpj: Option<String>,
    pub cpf: Option<String>,
    pub inscricao_estadual: Option<String>,
    pub email: Option<String>,
    pub telefone: Option<String>,
    pub cep: Option<String>,
    pub endereco: Option<String>,
    pub numero: Option<String>,
    pub bairro: Option<String>,
    pub cidade: Option<String>,
    pub estado: Option<String>,
    pub observacoes: Option<String>,
    pub ativo: bool,
    pub created_at: String,
    pub updated_at: String,
}

/// A purchase requisition.
#[derive(Debug, Clone, PartialEq, Eq)]
pub struct Requisicao {
    pub id: i64,
    pub numero: String,
    pub solicitante: Option<String>,
    pub departamento: Option<String>,
    pub data_solicitacao: String,
    pub data_necessidade: Option<String>,
    pub status: String,
    pub observacoes: Option<String>,
}

/// Facts about the running application.
#[derive(Debug, Clone, PartialEq, Eq)]
pub struct AppInfo {
    pub name: String,
    pub version: String,
    pub tauri_version: String,
    pub os: String,
    pub arch: String,
}

/// One stored setting.
#[derive(Debug, Clone)]
pub struct Config {
    pub chave: String,
    pub valor: serde_json::Value,
}

/// One page of a longer listing.
#[derive(Debug, Clone)]
pub struct PaginatedResponse<T> {
    pub data: Vec<T>,
    pub total: i64,
    pub page: i64,
    pub per_page: i64,
    pub total_pages: i64,
}

pub open spec fn magnitude(x: int) -> int {
    if x < 0 { -x } else { x }
}

/// `t / p` rounded up, for `p != 0`.
pub open spec fn ceil_div(t: int, p: int) -> int {
    if (t >= 0 && p > 0) || (t <= 0 && p < 0) {
        (magnitude(t) + magnitude(p) - 1) / magnitude(p)
    } else {
        -(magnitude(t) / magnitude(p))
    }
}

/// `x` held within the range of `i64`.
pub open spec fn saturate(x: int) -> int {
    if x > i64::MAX { i64::MAX as int } else if x < i64::MIN { i64::MIN as int } else { x }
}

/// The number of pages that `total` items fill at `per_page` items a page,
/// rounded up. With no items per page it is the extreme of the total's sign
/// (zero for no items); the result is held within the range of `i64`.
pub open spec fn page_count(total: int, per_page: int) -> int {
    if per_page == 0 {
        if total > 0 { i64::MAX as int } else if total < 0 { i64::MIN as int } else { 0 }
    } else {
        saturate(ceil_div(total, per_page))
    }
}

impl<T> PaginatedResponse<T> {
    /// A page of `data`, with the page count derived from `total` and `per_page`.
    pub fn new(data: Vec<T>, total: i64, page: i64, per_page: i64) -> (r: Self)
        ensures
            r.data == data,
            r.total == total,
            r.page == page,
            r.per_page == per_page,
            r.total_pages == page_count(total as int, per_page as int),
    {
        let total_pages: i64 = if per_page == 0 {
            if total > 0 { i64::MAX } else if total < 0 { i64::MIN } else { 0 }
        } else {
            let a: u128 = if total < 0 { (-(total as i128)) as u128 } else { total as u128 };
            let b: u128 = if per_page < 0 { (-(per_page as i128)) as u128 } else { per_page as u128 };
            if (total >= 0 && per_page > 0) || (total <= 0 && per_page < 0) {
                let q: u128 = (a + b - 1) / b;
                if q > i64::MAX as u128 { i64::MAX } else { q as i64 }
            } else {
                let q: u128 = a / b;
                (-(q as i128)) as i64
            }
        };
        proof {
            assert(magnitude(total as int) <= 0x8000_0000_0000_0000);
            if per_page != 0 && !((total >= 0 && per_page > 0) || (total <= 0 && per_page < 0)) {
                assert(magnitude(total as int) / magnitude(per_page as int) <= magnitude(total as int))
                    by (nonlinear_arith)
                    requires magnitude(per_page as int) >= 1, magnitude(total as int) >= 0;
            }
        }
        PaginatedResponse { data, total, page, per_page, total_pages }
    }
}

} // verus!
