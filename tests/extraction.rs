use preprocessor::{
    extract_examples, find_block, find_functions, resolve, Data, ExpansionOrigin, ExtractError,
    FunctionOutcome, HeaderMatcher, Node, SourceLocation, SourceRange,
};

fn loc(offset: usize) -> SourceLocation {
    SourceLocation { offset, expansion_origin: None }
}

fn range(begin: usize, end: usize) -> SourceRange {
    SourceRange { begin: loc(begin), end: loc(end) }
}

fn function(name: Option<&str>, begin: usize, end: usize, inner: Vec<Node>) -> Node {
    Node {
        kind: Data::FunctionDecl {
            name: name.map(|n| n.to_string()),
            loc: loc(begin),
            range: range(begin, end),
        },
        inner,
    }
}

fn other(inner: Vec<Node>) -> Node {
    Node { kind: Data::Other, inner }
}

fn lines(text: &[&str]) -> Vec<String> {
    text.iter().map(|l| l.to_string()).collect()
}

fn matcher() -> HeaderMatcher {
    HeaderMatcher::new().expect("header pattern compiles")
}

const ADD_SOURCE: &str = "int add(int a,int b){return a+b;}\n";

const ADD_DISASSEMBLY: &str = "\nadd.o:     file format elf64-x86-64\n\n\
Disassembly of section .text:\n\n\
0000000000000010 <add>:\n  10:\t8d 04 37             \tlea    eax,[rdi+rsi*1]\n  13:\tc3                   \tret\n\n";

fn names(outcomes: &[FunctionOutcome]) -> Vec<String> {
    outcomes.iter().map(|o| o.name.clone()).collect()
}

#[test]
fn scenario_add_function_pair() {
    let tree = other(vec![function(Some("add"), 0, 33, vec![])]);
    let out = extract_examples(&tree, ADD_SOURCE.as_bytes(), ADD_DISASSEMBLY, &matcher());
    assert_eq!(out.len(), 1);
    assert_eq!(out[0].name, "add");
    let example = out[0].result.as_ref().expect("add is extracted");
    assert_eq!(example.name, "add");
    assert_eq!(example.source_text, b"int add(int a,int b){return a+b;}".to_vec());
    assert_eq!(
        example.assembly_lines,
        lines(&[
            "  10:\t8d 04 37             \tlea    eax,[rdi+rsi*1]",
            "  13:\tc3                   \tret"
        ])
    );
}

#[test]
fn scenario_inlined_helper_not_emitted() {
    let source = "static int helper(void){return 1;}\nint add(int a,int b){return a+b;}\n";
    let tree = other(vec![function(Some("helper"), 0, 34, vec![]), function(Some("add"), 35, 68, vec![])]);
    let out = extract_examples(&tree, source.as_bytes(), ADD_DISASSEMBLY, &matcher());
    assert_eq!(names(&out), vec!["helper".to_string(), "add".to_string()]);
    assert!(matches!(out[0].result, Err(ExtractError::FunctionNotEmitted)));
    let add = out[1].result.as_ref().expect("add is extracted");
    assert_eq!(add.source_text, b"int add(int a,int b){return a+b;}".to_vec());
    let emitted = out.iter().filter(|o| o.result.is_ok()).count();
    assert_eq!(emitted, 1);
}

#[test]
fn scenario_included_function_skipped() {
    let mut included = function(Some("from_header"), 0, 10, vec![]);
    if let Data::FunctionDecl { loc, .. } = &mut included.kind {
        loc.expansion_origin = Some(ExpansionOrigin { included_from: Some("util.h".to_string()) });
    }
    let mut expanded_here = function(Some("add"), 0, 33, vec![]);
    if let Data::FunctionDecl { loc, .. } = &mut expanded_here.kind {
        loc.expansion_origin = Some(ExpansionOrigin { included_from: None });
    }
    let tree = other(vec![included, expanded_here]);
    let out = extract_examples(&tree, ADD_SOURCE.as_bytes(), ADD_DISASSEMBLY, &matcher());
    assert_eq!(names(&out), vec!["add".to_string()]);
    assert!(out[0].result.is_ok());
}

#[test]
fn anonymous_and_nested_functions_skipped() {
    let nested = function(Some("inner"), 0, 5, vec![]);
    let tree = other(vec![
        function(None, 0, 33, vec![]),
        function(Some("add"), 0, 33, vec![other(vec![nested])]),
        other(vec![other(vec![function(Some("deep"), 0, 3, vec![])])]),
    ]);
    let sites = find_functions(&tree);
    let found: Vec<String> = sites.iter().map(|s| s.name.clone()).collect();
    assert_eq!(found, vec!["add".to_string(), "deep".to_string()]);
}

#[test]
fn root_function_is_not_descended() {
    let tree = function(Some("outer"), 0, 10, vec![function(Some("inner"), 0, 5, vec![])]);
    let sites = find_functions(&tree);
    assert_eq!(sites.len(), 1);
    assert_eq!(sites[0].name, "outer");
    assert_eq!(sites[0].range.end.offset, 10);
}

#[test]
fn range_ending_at_source_length_resolves() {
    let source = b"int f(void){return 0;}";
    let r = range(4, source.len());
    assert_eq!(resolve(source, &r), Ok(b"f(void){return 0;}".to_vec()));
    assert_eq!(resolve(source, &range(0, source.len())), Ok(source.to_vec()));
    assert_eq!(resolve(source, &range(7, 7)), Ok(Vec::new()));
}

#[test]
fn inverted_or_overlong_range_is_out_of_bounds() {
    let source = b"int f(void){return 0;}";
    assert_eq!(resolve(source, &range(5, 4)), Err(ExtractError::RangeOutOfBounds));
    assert_eq!(resolve(source, &range(0, source.len() + 1)), Err(ExtractError::RangeOutOfBounds));
}

#[test]
fn out_of_bounds_range_skips_only_that_function() {
    let tree = other(vec![function(Some("add"), 0, 400, vec![]), function(Some("add"), 0, 33, vec![])]);
    let out = extract_examples(&tree, ADD_SOURCE.as_bytes(), ADD_DISASSEMBLY, &matcher());
    assert_eq!(out.len(), 2);
    assert!(matches!(out[0].result, Err(ExtractError::RangeOutOfBounds)));
    assert!(out[1].result.is_ok());
}

#[test]
fn source_text_is_kept_byte_for_byte() {
    let source = "  int\tf( void )\r\n{  return 0 ;}\r\n";
    let tree = other(vec![function(Some("f"), 2, 31, vec![])]);
    let dis = "0000000000000000 <f>:\n   0:\tret\n";
    let out = extract_examples(&tree, source.as_bytes(), dis, &matcher());
    let ex = out[0].result.as_ref().expect("f is extracted");
    assert_eq!(ex.source_text, source.as_bytes()[2..31].to_vec());
    assert_eq!(ex.assembly_lines, lines(&["   0:\tret"]));
}

#[test]
fn block_ends_at_blank_line_or_end() {
    let dis = lines(&["0000000000000000 <f>:", " 0: a", " 1: b", "", " 2: c", "0000000000000004 <g>:", " 4: d"]);
    let m = matcher();
    assert_eq!(find_block(&dis, &"f".to_string(), &m), Ok(lines(&[" 0: a", " 1: b"])));
    assert_eq!(find_block(&dis, &"g".to_string(), &m), Ok(lines(&[" 4: d"])));
}

#[test]
fn first_header_wins() {
    let dis = lines(&["0000000000000000 <dup>:", " 0: first", "", "0000000000000010 <dup>:", " 10: second"]);
    assert_eq!(find_block(&dis, &"dup".to_string(), &matcher()), Ok(lines(&[" 0: first"])));
}

#[test]
fn header_without_instructions_is_not_emitted() {
    let dis = lines(&["0000000000000000 <f>:", "", " 0: a"]);
    assert_eq!(find_block(&dis, &"f".to_string(), &matcher()), Err(ExtractError::FunctionNotEmitted));
    let at_end = lines(&["0000000000000000 <f>:"]);
    assert_eq!(find_block(&at_end, &"f".to_string(), &matcher()), Err(ExtractError::FunctionNotEmitted));
    assert_eq!(find_block(&Vec::new(), &"f".to_string(), &matcher()), Err(ExtractError::FunctionNotEmitted));
}

#[test]
fn header_shape_is_strict() {
    let m = matcher();
    let not_headers = [
        "00000000000000AB <f>:",
        "<f>:",
        "0000000000000000  <f>:",
        "0000000000000000 <f>: ",
        "0000000000000000 <f>",
        "0000000000000000 <>:",
        "x0000000000000000 <f>:",
        " 0000000000000000 <f>:",
    ];
    for h in not_headers.iter() {
        let dis = lines(&[h, " 0: a"]);
        assert_eq!(find_block(&dis, &"f".to_string(), &m), Err(ExtractError::FunctionNotEmitted), "{}", h);
    }
    let cpp = lines(&["0000000000000020 <ns::f(int)>:", " 20: ret"]);
    assert_eq!(find_block(&cpp, &"ns::f(int)".to_string(), &m), Ok(lines(&[" 20: ret"])));
    let angled = lines(&["0000000000000020 <a<b>:>:", " 20: ret"]);
    assert_eq!(find_block(&angled, &"a<b>:".to_string(), &m), Ok(lines(&[" 20: ret"])));
    assert_eq!(find_block(&angled, &"a<b".to_string(), &m), Err(ExtractError::FunctionNotEmitted));
}

#[test]
fn disassembly_with_crlf_line_ends() {
    let tree = other(vec![function(Some("add"), 0, 33, vec![])]);
    let dis = "0000000000000010 <add>:\r\n  10:\tlea\r\n  13:\tret\r\n\r\n0000000000000020 <other>:\r\n";
    let out = extract_examples(&tree, ADD_SOURCE.as_bytes(), dis, &matcher());
    let ex = out[0].result.as_ref().expect("add is extracted");
    assert_eq!(ex.assembly_lines, lines(&["  10:\tlea", "  13:\tret"]));
}

#[test]
fn rerun_gives_identical_outcomes() {
    let tree = other(vec![function(Some("add"), 0, 33, vec![]), function(Some("gone"), 0, 3, vec![])]);
    let m = matcher();
    let a = extract_examples(&tree, ADD_SOURCE.as_bytes(), ADD_DISASSEMBLY, &m);
    let b = extract_examples(&tree, ADD_SOURCE.as_bytes(), ADD_DISASSEMBLY, &m);
    assert_eq!(a.len(), b.len());
    for (x, y) in a.iter().zip(b.iter()) {
        assert_eq!(x.name, y.name);
        match (&x.result, &y.result) {
            (Ok(p), Ok(q)) => {
                assert_eq!(p.source_text, q.source_text);
                assert_eq!(p.assembly_lines, q.assembly_lines);
            }
            (Err(e), Err(f)) => assert_eq!(e, f),
            _ => panic!("runs differ"),
        }
    }
}

#[test]
fn examples_never_exceed_functions() {
    let tree = other(vec![
        function(Some("add"), 0, 33, vec![]),
        function(Some("missing"), 0, 33, vec![]),
        function(Some("add"), 30, 20, vec![]),
    ]);
    let out = extract_examples(&tree, ADD_SOURCE.as_bytes(), ADD_DISASSEMBLY, &matcher());
    let sites = find_functions(&tree);
    let emitted = out.iter().filter(|o| o.result.is_ok()).count();
    assert_eq!(sites.len(), 3);
    assert_eq!(out.len(), 3);
    assert_eq!(emitted, 1);
    assert!(emitted <= sites.len());
}
