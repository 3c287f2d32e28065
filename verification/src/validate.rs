//! Whether the snapshots fit together, decided at run time.

use vstd::prelude::*;
use crate::ast::{FinalizedProgram, Program};
use crate::context::{Finalizer, WrapKind};

verus! {

impl Finalizer {
    /// Decides what `module_wf` asks of module `m`.
    pub fn is_module_well_formed(&self, m: usize) -> (b: bool)
        requires
            m < self.modules@.len(),
            self.modules@.len() == self.linking_infos@.len(),
        ensures
            b == self.module_wf(m as int),
    {
        let module = &self.modules[m];
        let info = &self.linking_infos[m];
        let wrapper_named = match info.wrapper_ref {
            Some(w) => self.knows(w),
            None => match info.wrap_kind {
                WrapKind::Unwrapped => true,
                _ => false,
            },
        };
        let wrapper_info_there = match info.wrapper_stmt_info {
            Some(i) => i < module.stmt_infos.len(),
            None => true,
        };
        self.knows(module.namespace_symbol) && self.knows(module.default_export_ref)
            && module.stmt_infos.len() >= 1 && wrapper_named && wrapper_info_there
    }

    /// Decides `wf`.
    pub fn is_well_formed(&self) -> (b: bool)
        ensures
            b == self.wf(),
    {
        if !(self.id < self.modules.len() && self.modules.len() == self.linking_infos.len()) {
            return false;
        }
        if !(self.knows(self.runtime.re_export) && self.knows(self.runtime.to_esm) && self.knows(
            self.runtime.to_common_js,
        ) && self.knows(self.runtime.common_js_min) && self.knows(self.runtime.esm_min)) {
            return false;
        }
        let mut m: usize = 0;
        while m < self.modules.len()
            invariant
                m <= self.modules@.len(),
                self.modules@.len() == self.linking_infos@.len(),
                forall|k: int| 0 <= k < m ==> #[trigger] self.module_wf(k),
            decreases self.modules@.len() - m,
        {
            if !self.is_module_well_formed(m) {
                return false;
            }
            m += 1;
        }
        true
    }

    /// Finalizes `program` where the snapshots fit together, and refuses
    /// where they do not.
    pub fn finalize(&self, program: Program) -> (r: Option<FinalizedProgram>)
        ensures
            self.wf() ==> r == Some(self.finalized(program)),
            !self.wf() ==> r is None,
    {
        if self.is_well_formed() {
            Some(self.visit_program(program))
        } else {
            None
        }
    }
}

} // verus!
