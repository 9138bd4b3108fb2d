use vstd::prelude::*;

verus! {

/// What the status bar shows of the document being edited.
#[derive(Clone, Debug, Default)]
pub struct DocumentStatus {
    pub total_lines: usize,
    pub current_line_index: usize,
    pub filename: String,
    pub is_modified: bool,
}

impl PartialEq for DocumentStatus {
    fn eq(&self, other: &DocumentStatus) -> (r: bool) {
        self.total_lines == other.total_lines && self.current_line_index
            == other.current_line_index && self.filename == other.filename && self.is_modified
            == other.is_modified
    }
}

impl vstd::std_specs::cmp::PartialEqSpecImpl for DocumentStatus {
    open spec fn obeys_eq_spec() -> bool {
        true
    }

    open spec fn eq_spec(&self, other: &DocumentStatus) -> bool {
        self.total_lines == other.total_lines && self.current_line_index
            == other.current_line_index && self.filename@ == other.filename@ && self.is_modified
            == other.is_modified
    }
}

} // verus!
