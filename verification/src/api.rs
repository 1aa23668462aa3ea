//! The public entry point: refuse trees with syntax errors or missing
//! structure, then render.
use vstd::prelude::*;
use crate::render::{collect_named, format_statements};
use crate::render_spec::spec_beautify;
use crate::state::{Arguments, State};
use crate::tree::{Node, check_node, first_bad, wf_node, lemma_first_bad_none};

verus! {

/// Why a tree cannot be formatted: its parse reported a syntax error, or a
/// node misses a child its construct requires (reported with the source row
/// and column of the first such node in preorder).
#[derive(Clone, Copy, PartialEq, Eq, Structural, Debug)]
pub enum FormatError {
    Syntax,
    Structure { row: usize, col: usize },
}

/// Formats one parsed translation unit.  A tree whose root reports a syntax
/// error is refused outright; a tree missing required structure is refused
/// with the offending position; any other tree is rendered in full, and the
/// output is exactly `spec_beautify` of the tree and configuration.
pub fn beautify(root: &Node, arguments: &Arguments) -> (r: Result<Vec<u8>, FormatError>)
    ensures
        r is Ok <==> !root.has_error && wf_node(*root),
        root.has_error ==> r == Result::<Vec<u8>, FormatError>::Err(FormatError::Syntax),
        !root.has_error ==> match first_bad(*root) {
            Some(p) => r == Result::<Vec<u8>, FormatError>::Err(
                FormatError::Structure { row: p.0, col: p.1 },
            ),
            None => r matches Ok(v) && v@ == spec_beautify(arguments.cfg_spec(), *root),
        },
{
    proof {
        lemma_first_bad_none(*root);
    }
    if root.has_error {
        return Err(FormatError::Syntax);
    }
    match check_node(root) {
        Some((row, col)) => Err(FormatError::Structure { row, col }),
        None => {
            let c = arguments.cfg();
            let mut state = State::new();
            let stmts = collect_named(&root.children);
            format_statements(&mut state, c, &stmts);
            Ok(state.out)
        },
    }
}

} // verus!
