//! The read-only snapshots that the finalizer consults.

use vstd::prelude::*;

verus! {

/// A binding, by the module that owns it and its number there.
#[derive(Debug, Clone, Copy, PartialEq, Eq, Structural)]
pub struct SymbolRef {
    pub owner: usize,
    pub symbol: usize,
}

#[derive(Debug, Clone, Copy, PartialEq, Eq, Structural)]
pub enum ModuleId {
    Normal(usize),
    External(usize),
}

#[derive(Debug, Clone, Copy, PartialEq, Eq, Structural)]
pub enum ExportsKind {
    Esm,
    CommonJs,
    /// The module exports nothing.
    NoExports,
}

#[derive(Debug, Clone, Copy, PartialEq, Eq, Structural)]
pub enum WrapKind {
    /// The module is inlined as it stands.
    Unwrapped,
    Cjs,
    Esm,
}

#[derive(Debug, Clone, Copy, PartialEq, Eq, Structural)]
pub struct StmtInfo {
    pub is_included: bool,
    pub stmt_idx: Option<usize>,
}

/// One import, `export .. from` or `require` of the module: what it
/// resolves to.
#[derive(Debug, Clone, Copy, PartialEq, Eq, Structural)]
pub struct ImportRecord {
    pub resolved_module: ModuleId,
}

#[derive(Debug, Clone, PartialEq, Eq)]
pub struct Module {
    pub exports_kind: ExportsKind,
    /// Entry 0 stands for the module namespace; entry `i + 1` belongs to
    /// statement `i`.
    pub stmt_infos: Vec<StmtInfo>,
    pub import_records: Vec<ImportRecord>,
    pub namespace_symbol: SymbolRef,
    pub default_export_ref: SymbolRef,
}

#[derive(Debug, Clone, Copy, PartialEq, Eq, Structural)]
pub struct LinkingInfo {
    pub wrap_kind: WrapKind,
    pub wrapper_ref: Option<SymbolRef>,
    pub has_dynamic_exports: bool,
    pub wrapper_stmt_info: Option<usize>,
}

#[derive(Debug, Clone, PartialEq, Eq)]
pub struct Chunk {
    pub file_name: Option<String>,
}

#[derive(Debug, Clone, PartialEq, Eq)]
pub struct ChunkGraph {
    pub module_to_chunk: Vec<Option<usize>>,
    pub chunks: Vec<Chunk>,
}

/// The runtime helpers that finalized code calls.
#[derive(Debug, Clone, Copy, PartialEq, Eq, Structural)]
pub struct RuntimeHelpers {
    /// Copies the properties of one namespace object onto another.
    pub re_export: SymbolRef,
    /// Turns a CommonJS exports object into a namespace object.
    pub to_esm: SymbolRef,
    /// Turns a namespace object into a CommonJS exports object.
    pub to_common_js: SymbolRef,
    /// Makes the lazy wrapper of a CommonJS module.
    pub common_js_min: SymbolRef,
    /// Makes the lazy wrapper of an ES module.
    pub esm_min: SymbolRef,
}

/// Everything the rewrite of one module reads: the module's number, all
/// modules with their linking results, the canonical name of every symbol
/// (`symbols[owner][symbol]`), the chunks, and the runtime helpers.
#[derive(Debug, Clone, PartialEq, Eq)]
pub struct Finalizer {
    pub id: usize,
    pub modules: Vec<Module>,
    pub linking_infos: Vec<LinkingInfo>,
    pub symbols: Vec<Vec<String>>,
    pub chunk_graph: ChunkGraph,
    pub runtime: RuntimeHelpers,
}

/// The text that a dynamic import of the chunk file `file_name` names: the
/// string that `relative_chunk_path` builds, whose characters its contract
/// gives.
pub uninterp spec fn chunk_import_path(file_name: Seq<char>) -> String;

/// Calls std's `format!` with the pattern `./{}`: the result is the text of
/// `file_name` behind a dot and a slash.
#[verifier::external_body]
pub(crate) fn relative_chunk_path(file_name: &String) -> (r: String)
    ensures
        r == chunk_import_path(file_name@),
        r@ == seq!['.', '/'] + file_name@,
{
    format!("./{}", file_name)
}

impl Finalizer {
    /// Whether the symbol table holds a name for `r`.
    pub open spec fn has_name(&self, r: SymbolRef) -> bool {
        r.owner < self.symbols@.len() && r.symbol < self.symbols@[r.owner as int]@.len()
    }

    /// The canonical name of `r`.
    pub open spec fn name_of(&self, r: SymbolRef) -> String
        recommends
            self.has_name(r),
    {
        self.symbols@[r.owner as int]@[r.symbol as int]
    }

    /// The symbol of this module with the number `symbol`.
    pub open spec fn local(&self, symbol: usize) -> SymbolRef {
        SymbolRef { owner: self.id, symbol }
    }

    /// The name that an identifier with the text `current` has after the
    /// rewrite: the canonical name of its symbol, or its own text where it
    /// has no symbol or the table holds none for it.
    pub open spec fn renamed(&self, current: String, symbol_id: Option<usize>) -> String {
        match symbol_id {
            Some(s) if self.has_name(self.local(s)) => self.name_of(self.local(s)),
            _ => current,
        }
    }

    /// Whether the rewrite changes the text of such an identifier.
    pub open spec fn renames(&self, current: String, symbol_id: Option<usize>) -> bool {
        self.renamed(current, symbol_id)@ != current@
    }

    /// The module that import record `record` of this module resolves to,
    /// where that is a bundled module.
    pub open spec fn importee(&self, record: usize) -> Option<usize> {
        if self.id < self.modules@.len() && record < self.modules@[self.id as int].import_records@.len() {
            match self.modules@[self.id as int].import_records@[record as int].resolved_module {
                ModuleId::Normal(m) if m < self.modules@.len() => Some(m),
                _ => None,
            }
        } else {
            None
        }
    }

    /// The output file that holds module `m`, where the chunk graph names one.
    pub open spec fn chunk_file(&self, m: usize) -> Option<String> {
        let graph = self.chunk_graph;
        if m < graph.module_to_chunk@.len() {
            match graph.module_to_chunk@[m as int] {
                Some(c) if c < graph.chunks@.len() => graph.chunks@[c as int].file_name,
                _ => None,
            }
        } else {
            None
        }
    }

    /// The snapshots fit together: this module and every module has its
    /// linking result, and every symbol that the snapshots name has a
    /// canonical name.
    pub open spec fn wf(&self) -> bool {
        &&& self.id < self.modules@.len()
        &&& self.modules@.len() == self.linking_infos@.len()
        &&& self.has_name(self.runtime.re_export)
        &&& self.has_name(self.runtime.to_esm)
        &&& self.has_name(self.runtime.to_common_js)
        &&& self.has_name(self.runtime.common_js_min)
        &&& self.has_name(self.runtime.esm_min)
        &&& forall|m: int| 0 <= m < self.modules@.len() ==> #[trigger] self.module_wf(m)
    }

    /// What `wf` asks of module `m`: its symbols have names, it has the
    /// statement info of its namespace, a module that is wrapped has a
    /// wrapper, and the statement info of the wrapper is there.
    pub open spec fn module_wf(&self, m: int) -> bool {
        let module = self.modules@[m];
        let info = self.linking_infos@[m];
        &&& self.has_name(module.namespace_symbol)
        &&& self.has_name(module.default_export_ref)
        &&& module.stmt_infos@.len() >= 1
        &&& info.wrapper_ref matches Some(w) ==> self.has_name(w)
        &&& info.wrap_kind != WrapKind::Unwrapped ==> info.wrapper_ref is Some
        &&& info.wrapper_stmt_info matches Some(i) ==> i < module.stmt_infos@.len()
    }

    /// The canonical name of `r`.
    pub fn canonical_name_for(&self, r: SymbolRef) -> (name: String)
        requires
            self.has_name(r),
        ensures
            name == self.name_of(r),
    {
        self.symbols[r.owner][r.symbol].clone()
    }

    /// The module that import record `record` resolves to, where that is a
    /// bundled module.
    pub fn resolve_importee(&self, record: usize) -> (r: Option<usize>)
        ensures
            r == self.importee(record),
    {
        if self.id < self.modules.len() && record < self.modules[self.id].import_records.len() {
            match self.modules[self.id].import_records[record].resolved_module {
                ModuleId::Normal(m) => if m < self.modules.len() {
                    Some(m)
                } else {
                    None
                },
                ModuleId::External(_) => None,
            }
        } else {
            None
        }
    }
}

} // verus!
