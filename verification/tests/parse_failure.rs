use std::path::Path;

use swc_common::sync::Lrc;
use swc_common::{FileName, SourceMap, Spanned};
use swc_ecmascript::parser::{EsSyntax, Parser, StringInput, Syntax};

use cjs_lexer::ast::Diagnostic;

// Malformed input: parsing fails and yields a diagnostic with a non-null,
// 1-based position and a message; no export lists are produced.
#[test]
fn malformed_input_fails_with_positioned_diagnostic() {
    let source_map = SourceMap::default();
    let source_file = source_map.new_source_file(
        Lrc::new(FileName::Real(Path::new("./broken.js").to_path_buf())),
        "function (".to_string(),
    );
    let mut parser = Parser::new(
        Syntax::Es(EsSyntax::default()),
        StringInput::from(&*source_file),
        None,
    );
    let outcome = parser.parse_module();
    assert!(outcome.is_err());

    let err = outcome.unwrap_err();
    let loc = source_map.lookup_char_pos(err.span().lo);
    let line = loc.line.max(1);
    let column = loc.col.0.saturating_add(1).max(1);
    let diagnostic = Diagnostic::new(line, column, err.kind().msg().to_string());
    assert!(diagnostic.line >= 1);
    assert!(diagnostic.column >= 1);
    assert!(!diagnostic.message.is_empty());
}
