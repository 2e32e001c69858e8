//! The store's schema: its tables in creation order, their foreign references,
//! the secondary indexes, and the create-if-absent statements built from them.

use vstd::prelude::*;
use vstd::string::*;
use crate::sql::Statement;

verus! {

pub const USUARIOS: usize = 0;
pub const SESSOES: usize = 1;
pub const EMPRESAS: usize = 2;
pub const CLIENTES: usize = 3;
pub const FORNECEDORES: usize = 4;
pub const PRODUTOS: usize = 5;
pub const PEDIDOS_VENDA: usize = 6;
pub const PEDIDO_ITENS: usize = 7;
pub const CONTAS_PAGAR: usize = 8;
pub const CONTAS_RECEBER: usize = 9;
pub const CONTAS_BANCARIAS: usize = 10;
pub const FUNCIONARIOS: usize = 11;
pub const CONTROLE_PONTO: usize = 12;
pub const ORDENS_PRODUCAO: usize = 13;
pub const NOTAS_FISCAIS: usize = 14;
pub const CONFIGURACOES: usize = 15;

/// Number of tables in the schema.
pub const TABLE_COUNT: usize = 16;

/// Number of secondary indexes in the schema.
pub const INDEX_COUNT: usize = 10;

/// Column definitions of `usuarios`.
pub const USUARIOS_COLUMNS: &'static str = "id INTEGER PRIMARY KEY AUTOINCREMENT,\n    nome TEXT NOT NULL,\n    email TEXT UNIQUE NOT NULL,\n    senha_hash TEXT NOT NULL,\n    cargo TEXT,\n    departamento TEXT,\n    avatar TEXT,\n    ativo INTEGER DEFAULT 1,\n    permissoes TEXT DEFAULT '{}',\n    ultimo_acesso TEXT,\n    created_at TEXT DEFAULT (datetime('now')),\n    updated_at TEXT DEFAULT (datetime('now'))";

/// Column definitions of `sessoes`.
pub const SESSOES_COLUMNS: &'static str = "id TEXT PRIMARY KEY,\n    usuario_id INTEGER NOT NULL,\n    token TEXT UNIQUE NOT NULL,\n    expires_at TEXT NOT NULL,\n    created_at TEXT DEFAULT (datetime('now'))";

/// Column definitions of `empresas`.
pub const EMPRESAS_COLUMNS: &'static str = "id INTEGER PRIMARY KEY AUTOINCREMENT,\n    razao_social TEXT NOT NULL,\n    nome_fantasia TEXT,\n    cnpj TEXT UNIQUE,\n    inscricao_estadual TEXT,\n    inscricao_municipal TEXT,\n    telefone TEXT,\n    email TEXT,\n    cep TEXT,\n    endereco TEXT,\n    numero TEXT,\n    complemento TEXT,\n    bairro TEXT,\n    cidade TEXT,\n    estado TEXT,\n    logo_path TEXT,\n    created_at TEXT DEFAULT (datetime('now')),\n    updated_at TEXT DEFAULT (datetime('now'))";

/// Column definitions of `clientes`.
pub const CLIENTES_COLUMNS: &'static str = "id INTEGER PRIMARY KEY AUTOINCREMENT,\n    nome TEXT NOT NULL,\n    razao_social TEXT,\n    nome_fantasia TEXT,\n    cnpj TEXT,\n    cpf TEXT,\n    inscricao_estadual TEXT,\n    inscricao_municipal TEXT,\n    email TEXT,\n    telefone TEXT,\n    celular TEXT,\n    cep TEXT,\n    endereco TEXT,\n    numero TEXT,\n    complemento TEXT,\n    bairro TEXT,\n    cidade TEXT,\n    estado TEXT,\n    observacoes TEXT,\n    limite_credito REAL DEFAULT 0,\n    vendedor_id INTEGER,\n    ativo INTEGER DEFAULT 1,\n    created_at TEXT DEFAULT (datetime('now')),\n    updated_at TEXT DEFAULT (datetime('now'))";

/// Column definitions of `fornecedores`.
pub const FORNECEDORES_COLUMNS: &'static str = "id INTEGER PRIMARY KEY AUTOINCREMENT,\n    nome TEXT NOT NULL,\n    razao_social TEXT,\n    nome_fantasia TEXT,\n    cnpj TEXT,\n    cpf TEXT,\n    inscricao_estadual TEXT,\n    email TEXT,\n    telefone TEXT,\n    cep TEXT,\n    endereco TEXT,\n    numero TEXT,\n    bairro TEXT,\n    cidade TEXT,\n    estado TEXT,\n    observacoes TEXT,\n    ativo INTEGER DEFAULT 1,\n    created_at TEXT DEFAULT (datetime('now')),\n    updated_at TEXT DEFAULT (datetime('now'))";

/// Column definitions of `produtos`.
pub const PRODUTOS_COLUMNS: &'static str = "id INTEGER PRIMARY KEY AUTOINCREMENT,\n    codigo TEXT UNIQUE,\n    nome TEXT NOT NULL,\n    descricao TEXT,\n    categoria TEXT,\n    unidade TEXT DEFAULT 'UN',\n    preco_custo REAL DEFAULT 0,\n    preco_venda REAL DEFAULT 0,\n    margem REAL DEFAULT 0,\n    estoque_minimo REAL DEFAULT 0,\n    estoque_atual REAL DEFAULT 0,\n    ncm TEXT,\n    cest TEXT,\n    origem TEXT,\n    cfop TEXT,\n    cst_icms TEXT,\n    cst_pis TEXT,\n    cst_cofins TEXT,\n    ativo INTEGER DEFAULT 1,\n    created_at TEXT DEFAULT (datetime('now')),\n    updated_at TEXT DEFAULT (datetime('now'))";

/// Column definitions of `pedidos_venda`.
pub const PEDIDOS_VENDA_COLUMNS: &'static str = "id INTEGER PRIMARY KEY AUTOINCREMENT,\n    numero TEXT UNIQUE,\n    cliente_id INTEGER,\n    vendedor_id INTEGER,\n    data_pedido TEXT,\n    data_entrega TEXT,\n    status TEXT DEFAULT 'orcamento',\n    subtotal REAL DEFAULT 0,\n    desconto REAL DEFAULT 0,\n    acrescimo REAL DEFAULT 0,\n    total REAL DEFAULT 0,\n    forma_pagamento TEXT,\n    condicao_pagamento TEXT,\n    observacoes TEXT,\n    created_at TEXT DEFAULT (datetime('now')),\n    updated_at TEXT DEFAULT (datetime('now'))";

/// Column definitions of `pedido_itens`.
pub const PEDIDO_ITENS_COLUMNS: &'static str = "id INTEGER PRIMARY KEY AUTOINCREMENT,\n    pedido_id INTEGER NOT NULL,\n    produto_id INTEGER NOT NULL,\n    quantidade REAL DEFAULT 1,\n    preco_unitario REAL DEFAULT 0,\n    desconto REAL DEFAULT 0,\n    total REAL DEFAULT 0";

/// Column definitions of `contas_pagar`.
pub const CONTAS_PAGAR_COLUMNS: &'static str = "id INTEGER PRIMARY KEY AUTOINCREMENT,\n    descricao TEXT NOT NULL,\n    fornecedor_id INTEGER,\n    valor REAL NOT NULL,\n    data_vencimento TEXT NOT NULL,\n    data_pagamento TEXT,\n    status TEXT DEFAULT 'pendente',\n    categoria TEXT,\n    forma_pagamento TEXT,\n    observacoes TEXT,\n    created_at TEXT DEFAULT (datetime('now')),\n    updated_at TEXT DEFAULT (datetime('now'))";

/// Column definitions of `contas_receber`.
pub const CONTAS_RECEBER_COLUMNS: &'static str = "id INTEGER PRIMARY KEY AUTOINCREMENT,\n    descricao TEXT NOT NULL,\n    cliente_id INTEGER,\n    pedido_id INTEGER,\n    valor REAL NOT NULL,\n    data_vencimento TEXT NOT NULL,\n    data_recebimento TEXT,\n    status TEXT DEFAULT 'pendente',\n    categoria TEXT,\n    forma_recebimento TEXT,\n    observacoes TEXT,\n    created_at TEXT DEFAULT (datetime('now')),\n    updated_at TEXT DEFAULT (datetime('now'))";

/// Column definitions of `contas_bancarias`.
pub const CONTAS_BANCARIAS_COLUMNS: &'static str = "id INTEGER PRIMARY KEY AUTOINCREMENT,\n    nome TEXT NOT NULL,\n    banco TEXT,\n    agencia TEXT,\n    conta TEXT,\n    tipo TEXT DEFAULT 'corrente',\n    saldo_inicial REAL DEFAULT 0,\n    saldo_atual REAL DEFAULT 0,\n    ativo INTEGER DEFAULT 1,\n    created_at TEXT DEFAULT (datetime('now')),\n    updated_at TEXT DEFAULT (datetime('now'))";

/// Column definitions of `funcionarios`.
pub const FUNCIONARIOS_COLUMNS: &'static str = "id INTEGER PRIMARY KEY AUTOINCREMENT,\n    usuario_id INTEGER,\n    nome TEXT NOT NULL,\n    cpf TEXT UNIQUE,\n    rg TEXT,\n    data_nascimento TEXT,\n    data_admissao TEXT,\n    data_demissao TEXT,\n    cargo TEXT,\n    departamento TEXT,\n    salario REAL DEFAULT 0,\n    email TEXT,\n    telefone TEXT,\n    cep TEXT,\n    endereco TEXT,\n    numero TEXT,\n    bairro TEXT,\n    cidade TEXT,\n    estado TEXT,\n    ativo INTEGER DEFAULT 1,\n    created_at TEXT DEFAULT (datetime('now')),\n    updated_at TEXT DEFAULT (datetime('now'))";

/// Column definitions of `controle_ponto`.
pub const CONTROLE_PONTO_COLUMNS: &'static str = "id INTEGER PRIMARY KEY AUTOINCREMENT,\n    funcionario_id INTEGER NOT NULL,\n    data TEXT NOT NULL,\n    entrada TEXT,\n    saida_almoco TEXT,\n    retorno_almoco TEXT,\n    saida TEXT,\n    horas_trabalhadas REAL DEFAULT 0,\n    observacoes TEXT,\n    created_at TEXT DEFAULT (datetime('now'))";

/// Column definitions of `ordens_producao`.
pub const ORDENS_PRODUCAO_COLUMNS: &'static str = "id INTEGER PRIMARY KEY AUTOINCREMENT,\n    numero TEXT UNIQUE,\n    produto_id INTEGER,\n    quantidade REAL DEFAULT 1,\n    data_inicio TEXT,\n    data_prevista TEXT,\n    data_conclusao TEXT,\n    status TEXT DEFAULT 'planejada',\n    prioridade TEXT DEFAULT 'normal',\n    responsavel_id INTEGER,\n    observacoes TEXT,\n    created_at TEXT DEFAULT (datetime('now')),\n    updated_at TEXT DEFAULT (datetime('now'))";

/// Column definitions of `notas_fiscais`.
pub const NOTAS_FISCAIS_COLUMNS: &'static str = "id INTEGER PRIMARY KEY AUTOINCREMENT,\n    numero TEXT,\n    serie TEXT,\n    chave TEXT UNIQUE,\n    tipo TEXT DEFAULT 'saida',\n    natureza_operacao TEXT,\n    data_emissao TEXT,\n    data_saida TEXT,\n    cliente_id INTEGER,\n    fornecedor_id INTEGER,\n    pedido_id INTEGER,\n    valor_produtos REAL DEFAULT 0,\n    valor_frete REAL DEFAULT 0,\n    valor_seguro REAL DEFAULT 0,\n    valor_desconto REAL DEFAULT 0,\n    valor_total REAL DEFAULT 0,\n    status TEXT DEFAULT 'pendente',\n    xml TEXT,\n    protocolo TEXT,\n    observacoes TEXT,\n    created_at TEXT DEFAULT (datetime('now')),\n    updated_at TEXT DEFAULT (datetime('now'))";

/// Column definitions of `configuracoes`.
pub const CONFIGURACOES_COLUMNS: &'static str = "chave TEXT PRIMARY KEY,\n    valor TEXT,\n    tipo TEXT DEFAULT 'string',\n    updated_at TEXT DEFAULT (datetime('now'))";

/// A column of one table that refers to the `id` of another.
#[derive(Debug, Clone, Copy, PartialEq, Eq)]
pub struct ForeignKey {
    pub column: &'static str,
    /// Position of the referenced table in the schema.
    pub target: usize,
    /// Whether deleting the referenced row deletes the referring rows.
    pub cascade: bool,
}

/// One table: its name, its column definitions, and its foreign keys.
#[derive(Debug, Clone)]
pub struct TableDef {
    pub name: &'static str,
    pub columns: &'static str,
    pub foreign_keys: Vec<ForeignKey>,
}

/// A secondary index on one column of a table.
#[derive(Debug, Clone, Copy, PartialEq, Eq)]
pub struct IndexDef {
    pub name: &'static str,
    /// Position of the indexed table in the schema.
    pub table: usize,
    pub column: &'static str,
}

/// A table as text: its name, its column definitions, and its foreign keys.
pub type TableView = (Seq<char>, Seq<char>, Seq<ForeignKey>);

pub open spec fn table_view(t: TableDef) -> TableView {
    (t.name@, t.columns@, t.foreign_keys@)
}

pub open spec fn tables_view(tables: Seq<TableDef>) -> Seq<TableView> {
    tables.map_values(|t: TableDef| table_view(t))
}

/// The tables of the store, in creation order.
pub open spec fn schema_table_list() -> Seq<TableView> {
    seq![
        ("usuarios"@, USUARIOS_COLUMNS@, seq![]),
        ("sessoes"@, SESSOES_COLUMNS@, seq![ForeignKey { column: "usuario_id", target: USUARIOS, cascade: false }]),
        ("empresas"@, EMPRESAS_COLUMNS@, seq![]),
        ("clientes"@, CLIENTES_COLUMNS@, seq![]),
        ("fornecedores"@, FORNECEDORES_COLUMNS@, seq![]),
        ("produtos"@, PRODUTOS_COLUMNS@, seq![]),
        ("pedidos_venda"@, PEDIDOS_VENDA_COLUMNS@, seq![ForeignKey { column: "cliente_id", target: CLIENTES, cascade: false }, ForeignKey { column: "vendedor_id", target: USUARIOS, cascade: false }]),
        ("pedido_itens"@, PEDIDO_ITENS_COLUMNS@, seq![ForeignKey { column: "pedido_id", target: PEDIDOS_VENDA, cascade: true }, ForeignKey { column: "produto_id", target: PRODUTOS, cascade: false }]),
        ("contas_pagar"@, CONTAS_PAGAR_COLUMNS@, seq![ForeignKey { column: "fornecedor_id", target: FORNECEDORES, cascade: false }]),
        ("contas_receber"@, CONTAS_RECEBER_COLUMNS@, seq![ForeignKey { column: "cliente_id", target: CLIENTES, cascade: false }, ForeignKey { column: "pedido_id", target: PEDIDOS_VENDA, cascade: false }]),
        ("contas_bancarias"@, CONTAS_BANCARIAS_COLUMNS@, seq![]),
        ("funcionarios"@, FUNCIONARIOS_COLUMNS@, seq![ForeignKey { column: "usuario_id", target: USUARIOS, cascade: false }]),
        ("controle_ponto"@, CONTROLE_PONTO_COLUMNS@, seq![ForeignKey { column: "funcionario_id", target: FUNCIONARIOS, cascade: false }]),
        ("ordens_producao"@, ORDENS_PRODUCAO_COLUMNS@, seq![ForeignKey { column: "produto_id", target: PRODUTOS, cascade: false }, ForeignKey { column: "responsavel_id", target: FUNCIONARIOS, cascade: false }]),
        ("notas_fiscais"@, NOTAS_FISCAIS_COLUMNS@, seq![ForeignKey { column: "cliente_id", target: CLIENTES, cascade: false }, ForeignKey { column: "fornecedor_id", target: FORNECEDORES, cascade: false }, ForeignKey { column: "pedido_id", target: PEDIDOS_VENDA, cascade: false }]),
        ("configuracoes"@, CONFIGURACOES_COLUMNS@, seq![])
    ]
}

/// The secondary indexes of the store.
pub open spec fn schema_index_list() -> Seq<IndexDef> {
    seq![
        IndexDef { name: "idx_clientes_nome", table: CLIENTES, column: "nome" },
        IndexDef { name: "idx_clientes_cnpj", table: CLIENTES, column: "cnpj" },
        IndexDef { name: "idx_produtos_codigo", table: PRODUTOS, column: "codigo" },
        IndexDef { name: "idx_produtos_nome", table: PRODUTOS, column: "nome" },
        IndexDef { name: "idx_pedidos_numero", table: PEDIDOS_VENDA, column: "numero" },
        IndexDef { name: "idx_pedidos_cliente", table: PEDIDOS_VENDA, column: "cliente_id" },
        IndexDef { name: "idx_contas_pagar_vencimento", table: CONTAS_PAGAR, column: "data_vencimento" },
        IndexDef { name: "idx_contas_receber_vencimento", table: CONTAS_RECEBER, column: "data_vencimento" },
        IndexDef { name: "idx_funcionarios_cpf", table: FUNCIONARIOS, column: "cpf" },
        IndexDef { name: "idx_nf_chave", table: NOTAS_FISCAIS, column: "chave" }
    ]
}

/// Every foreign key refers to a table created before its own: tables are
/// listed in dependency order.
pub open spec fn references_earlier(tables: Seq<TableView>) -> bool {
    forall|i: int, j: int|
        0 <= i < tables.len() && 0 <= j < tables[i].2.len() ==> #[trigger] tables[i].2[j].target < i
}

/// Every index is on a table of the schema.
pub open spec fn indexes_on_tables(indexes: Seq<IndexDef>, table_count: int) -> bool {
    forall|k: int| 0 <= k < indexes.len() ==> #[trigger] indexes[k].table < table_count
}

pub open spec fn create_table_prefix() -> Seq<char> {
    "CREATE TABLE IF NOT EXISTS "@
}

pub open spec fn create_index_prefix() -> Seq<char> {
    "CREATE INDEX IF NOT EXISTS "@
}

/// A statement that begins as a create-if-absent statement does.
pub open spec fn begins_create_if_absent(sql: Seq<char>) -> bool {
    sql.len() >= create_table_prefix().len() && (
        sql.subrange(0, create_table_prefix().len() as int) == create_table_prefix()
        || sql.subrange(0, create_index_prefix().len() as int) == create_index_prefix()
    )
}

/// The clause that declares one foreign key.
pub open spec fn foreign_key_clause(tables: Seq<TableView>, fk: ForeignKey) -> Seq<char> {
    ",\n    FOREIGN KEY ("@ + fk.column@ + ") REFERENCES "@ + tables[fk.target as int].0
        + "(id)"@ + if fk.cascade { " ON DELETE CASCADE"@ } else { Seq::empty() }
}

/// The clauses of a list of foreign keys, in order.
pub open spec fn foreign_key_clauses(tables: Seq<TableView>, fks: Seq<ForeignKey>) -> Seq<char>
    decreases fks.len(),
{
    if fks.len() == 0 {
        Seq::empty()
    } else {
        foreign_key_clauses(tables, fks.drop_last()) + foreign_key_clause(tables, fks.last())
    }
}

/// The statement that creates table `i` if it does not exist.
pub open spec fn create_table_sql(tables: Seq<TableView>, i: int) -> Seq<char> {
    create_table_prefix() + tables[i].0 + " (\n    "@ + tables[i].1
        + foreign_key_clauses(tables, tables[i].2) + "\n)"@
}

/// The statement that creates an index if it does not exist.
pub open spec fn create_index_sql(tables: Seq<TableView>, index: IndexDef) -> Seq<char> {
    create_index_prefix() + index.name@ + " ON "@ + tables[index.table as int].0 + "("@
        + index.column@ + ")"@
}

/// The tables of the schema, each after the tables it refers to.
pub fn schema_tables() -> (tables: Vec<TableDef>)
    ensures
        tables_view(tables@) == schema_table_list(),
        tables.len() == TABLE_COUNT,
        references_earlier(tables_view(tables@)),
{
    let mut tables: Vec<TableDef> = Vec::new();
    tables.push(TableDef { name: "usuarios", columns: USUARIOS_COLUMNS, foreign_keys: vec![] });
    tables.push(TableDef { name: "sessoes", columns: SESSOES_COLUMNS, foreign_keys: vec![ForeignKey { column: "usuario_id", target: USUARIOS, cascade: false }] });
    tables.push(TableDef { name: "empresas", columns: EMPRESAS_COLUMNS, foreign_keys: vec![] });
    tables.push(TableDef { name: "clientes", columns: CLIENTES_COLUMNS, foreign_keys: vec![] });
    tables.push(TableDef { name: "fornecedores", columns: FORNECEDORES_COLUMNS, foreign_keys: vec![] });
    tables.push(TableDef { name: "produtos", columns: PRODUTOS_COLUMNS, foreign_keys: vec![] });
    tables.push(TableDef { name: "pedidos_venda", columns: PEDIDOS_VENDA_COLUMNS, foreign_keys: vec![ForeignKey { column: "cliente_id", target: CLIENTES, cascade: false }, ForeignKey { column: "vendedor_id", target: USUARIOS, cascade: false }] });
    tables.push(TableDef { name: "pedido_itens", columns: PEDIDO_ITENS_COLUMNS, foreign_keys: vec![ForeignKey { column: "pedido_id", target: PEDIDOS_VENDA, cascade: true }, ForeignKey { column: "produto_id", target: PRODUTOS, cascade: false }] });
    tables.push(TableDef { name: "contas_pagar", columns: CONTAS_PAGAR_COLUMNS, foreign_keys: vec![ForeignKey { column: "fornecedor_id", target: FORNECEDORES, cascade: false }] });
    tables.push(TableDef { name: "contas_receber", columns: CONTAS_RECEBER_COLUMNS, foreign_keys: vec![ForeignKey { column: "cliente_id", target: CLIENTES, cascade: false }, ForeignKey { column: "pedido_id", target: PEDIDOS_VENDA, cascade: false }] });
    tables.push(TableDef { name: "contas_bancarias", columns: CONTAS_BANCARIAS_COLUMNS, foreign_keys: vec![] });
    tables.push(TableDef { name: "funcionarios", columns: FUNCIONARIOS_COLUMNS, foreign_keys: vec![ForeignKey { column: "usuario_id", target: USUARIOS, cascade: false }] });
    tables.push(TableDef { name: "controle_ponto", columns: CONTROLE_PONTO_COLUMNS, foreign_keys: vec![ForeignKey { column: "funcionario_id", target: FUNCIONARIOS, cascade: false }] });
    tables.push(TableDef { name: "ordens_producao", columns: ORDENS_PRODUCAO_COLUMNS, foreign_keys: vec![ForeignKey { column: "produto_id", target: PRODUTOS, cascade: false }, ForeignKey { column: "responsavel_id", target: FUNCIONARIOS, cascade: false }] });
    tables.push(TableDef { name: "notas_fiscais", columns: NOTAS_FISCAIS_COLUMNS, foreign_keys: vec![ForeignKey { column: "cliente_id", target: CLIENTES, cascade: false }, ForeignKey { column: "fornecedor_id", target: FORNECEDORES, cascade: false }, ForeignKey { column: "pedido_id", target: PEDIDOS_VENDA, cascade: false }] });
    tables.push(TableDef { name: "configuracoes", columns: CONFIGURACOES_COLUMNS, foreign_keys: vec![] });
    proof {
        assert(tables_view(tables@).len() == schema_table_list().len());
        assert(tables_view(tables@)[0] == schema_table_list()[0]);
        assert(tables_view(tables@)[1] == schema_table_list()[1]);
        assert(tables_view(tables@)[2] == schema_table_list()[2]);
        assert(tables_view(tables@)[3] == schema_table_list()[3]);
        assert(tables_view(tables@)[4] == schema_table_list()[4]);
        assert(tables_view(tables@)[5] == schema_table_list()[5]);
        assert(tables_view(tables@)[6] == schema_table_list()[6]);
        assert(tables_view(tables@)[7] == schema_table_list()[7]);
        assert(tables_view(tables@)[8] == schema_table_list()[8]);
        assert(tables_view(tables@)[9] == schema_table_list()[9]);
        assert(tables_view(tables@)[10] == schema_table_list()[10]);
        assert(tables_view(tables@)[11] == schema_table_list()[11]);
        assert(tables_view(tables@)[12] == schema_table_list()[12]);
        assert(tables_view(tables@)[13] == schema_table_list()[13]);
        assert(tables_view(tables@)[14] == schema_table_list()[14]);
        assert(tables_view(tables@)[15] == schema_table_list()[15]);
        assert(tables_view(tables@) =~= schema_table_list());
    }
    tables
}

/// The secondary indexes of the schema.
pub fn schema_indexes() -> (indexes: Vec<IndexDef>)
    ensures
        indexes@ == schema_index_list(),
        indexes.len() == INDEX_COUNT,
        indexes_on_tables(indexes@, TABLE_COUNT as int),
{
    let mut indexes: Vec<IndexDef> = Vec::new();
    indexes.push(IndexDef { name: "idx_clientes_nome", table: CLIENTES, column: "nome" });
    indexes.push(IndexDef { name: "idx_clientes_cnpj", table: CLIENTES, column: "cnpj" });
    indexes.push(IndexDef { name: "idx_produtos_codigo", table: PRODUTOS, column: "codigo" });
    indexes.push(IndexDef { name: "idx_produtos_nome", table: PRODUTOS, column: "nome" });
    indexes.push(IndexDef { name: "idx_pedidos_numero", table: PEDIDOS_VENDA, column: "numero" });
    indexes.push(IndexDef { name: "idx_pedidos_cliente", table: PEDIDOS_VENDA, column: "cliente_id" });
    indexes.push(IndexDef { name: "idx_contas_pagar_vencimento", table: CONTAS_PAGAR, column: "data_vencimento" });
    indexes.push(IndexDef { name: "idx_contas_receber_vencimento", table: CONTAS_RECEBER, column: "data_vencimento" });
    indexes.push(IndexDef { name: "idx_funcionarios_cpf", table: FUNCIONARIOS, column: "cpf" });
    indexes.push(IndexDef { name: "idx_nf_chave", table: NOTAS_FISCAIS, column: "chave" });
    assert(indexes@ =~= schema_index_list());
    indexes
}

/// The clauses of `fks`, as `foreign_key_clauses` states them.
fn render_foreign_keys(tables: &Vec<TableDef>, fks: &Vec<ForeignKey>) -> (r: String)
    requires
        forall|j: int| 0 <= j < fks@.len() ==> #[trigger] fks@[j].target < tables@.len(),
    ensures
        r@ == foreign_key_clauses(tables_view(tables@), fks@),
{
    let mut text = String::new();
    let mut j: usize = 0;
    while j < fks.len()
        invariant
            j <= fks@.len(),
            forall|k: int| 0 <= k < fks@.len() ==> #[trigger] fks@[k].target < tables@.len(),
            text@ == foreign_key_clauses(tables_view(tables@), fks@.subrange(0, j as int)),
        decreases fks@.len() - j,
    {
        let fk = fks[j];
        text.append(",\n    FOREIGN KEY (");
        text.append(fk.column);
        text.append(") REFERENCES ");
        text.append(tables[fk.target].name);
        text.append("(id)");
        if fk.cascade {
            text.append(" ON DELETE CASCADE");
        }
        proof {
            assert(fks@.subrange(0, j + 1).drop_last() =~= fks@.subrange(0, j as int));
        }
        j = j + 1;
    }
    proof {
        assert(fks@.subrange(0, fks@.len() as int) =~= fks@);
    }
    text
}

/// The statement that creates table `i` where it is absent.
pub fn create_table_statement(tables: &Vec<TableDef>, i: usize) -> (r: Statement)
    requires
        i < tables@.len(),
        references_earlier(tables_view(tables@)),
    ensures
        r.sql@ == create_table_sql(tables_view(tables@), i as int),
        r.params@.len() == 0,
{
    let table = &tables[i];
    proof {
        assert forall|j: int| 0 <= j < table.foreign_keys@.len() implies
            #[trigger] table.foreign_keys@[j].target < tables@.len() by {
            assert(tables_view(tables@)[i as int].2[j].target < i);
        }
    }
    let mut sql = String::from_str("CREATE TABLE IF NOT EXISTS ");
    sql.append(table.name);
    sql.append(" (\n    ");
    sql.append(table.columns);
    let clauses = render_foreign_keys(tables, &table.foreign_keys);
    sql.append(clauses.as_str());
    sql.append("\n)");
    Statement { sql, params: Vec::new() }
}

/// The statement that creates an index where it is absent.
pub fn create_index_statement(tables: &Vec<TableDef>, index: IndexDef) -> (r: Statement)
    requires
        index.table < tables@.len(),
    ensures
        r.sql@ == create_index_sql(tables_view(tables@), index),
        r.params@.len() == 0,
{
    let mut sql = String::from_str("CREATE INDEX IF NOT EXISTS ");
    sql.append(index.name);
    sql.append(" ON ");
    sql.append(tables[index.table].name);
    sql.append("(");
    sql.append(index.column);
    sql.append(")");
    Statement { sql, params: Vec::new() }
}

proof fn lemma_prefix_kept(p: Seq<char>, rest: Seq<char>)
    ensures
        (p + rest).subrange(0, p.len() as int) == p,
{
    assert((p + rest).subrange(0, p.len() as int) =~= p);
}

/// The statements that bring a store to the full schema: every table in
/// dependency order, then every index. Each creates its object only where it
/// is absent, so running them again on a store that has the schema changes
/// nothing.
pub fn schema_statements(tables: &Vec<TableDef>, indexes: &Vec<IndexDef>) -> (r: Vec<Statement>)
    requires
        references_earlier(tables_view(tables@)),
        indexes_on_tables(indexes@, tables@.len() as int),
    ensures
        r@.len() == tables@.len() + indexes@.len(),
        forall|i: int| 0 <= i < tables@.len() ==> #[trigger] r@[i].sql@ == create_table_sql(tables_view(tables@), i),
        forall|k: int| 0 <= k < indexes@.len()
            ==> #[trigger] r@[tables@.len() + k].sql@ == create_index_sql(tables_view(tables@), indexes@[k]),
        forall|i: int| 0 <= i < r@.len() ==> #[trigger] begins_create_if_absent(r@[i].sql@),
        forall|i: int| 0 <= i < r@.len() ==> #[trigger] r@[i].params@.len() == 0,
{
    let mut out: Vec<Statement> = Vec::new();
    let mut i: usize = 0;
    while i < tables.len()
        invariant
            i <= tables@.len(),
            references_earlier(tables_view(tables@)),
            out@.len() == i,
            forall|t: int| 0 <= t < i ==> #[trigger] out@[t].sql@ == create_table_sql(tables_view(tables@), t),
            forall|t: int| 0 <= t < i ==> #[trigger] begins_create_if_absent(out@[t].sql@),
            forall|t: int| 0 <= t < i ==> #[trigger] out@[t].params@.len() == 0,
        decreases tables@.len() - i,
    {
        let st = create_table_statement(tables, i);
        proof {
            reveal_strlit("CREATE TABLE IF NOT EXISTS ");
            lemma_prefix_kept(create_table_prefix(), st.sql@.subrange(create_table_prefix().len() as int, st.sql@.len() as int));
            assert(st.sql@ =~= create_table_prefix() + st.sql@.subrange(create_table_prefix().len() as int, st.sql@.len() as int));
        }
        out.push(st);
        i = i + 1;
    }
    let mut k: usize = 0;
    while k < indexes.len()
        invariant
            k <= indexes@.len(),
            indexes_on_tables(indexes@, tables@.len() as int),
            out@.len() == tables@.len() + k,
            forall|t: int| 0 <= t < tables@.len() ==> #[trigger] out@[t].sql@ == create_table_sql(tables_view(tables@), t),
            forall|t: int| 0 <= t < k ==> #[trigger] out@[tables@.len() + t].sql@ == create_index_sql(tables_view(tables@), indexes@[t]),
            forall|t: int| 0 <= t < out@.len() ==> #[trigger] begins_create_if_absent(out@[t].sql@),
            forall|t: int| 0 <= t < out@.len() ==> #[trigger] out@[t].params@.len() == 0,
        decreases indexes@.len() - k,
    {
        let st = create_index_statement(tables, indexes[k]);
        proof {
            reveal_strlit("CREATE TABLE IF NOT EXISTS ");
            reveal_strlit("CREATE INDEX IF NOT EXISTS ");
            assert(st.sql@ =~= create_index_prefix() + st.sql@.subrange(create_index_prefix().len() as int, st.sql@.len() as int));
            lemma_prefix_kept(create_index_prefix(), st.sql@.subrange(create_index_prefix().len() as int, st.sql@.len() as int));
        }
        out.push(st);
        k = k + 1;
    }
    out
}

} // verus!
