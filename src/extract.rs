use vstd::prelude::*;

use crate::assembly::{
    assembly_block, find_block, line_views, split_lines, text_lines, HeaderMatcher,
};
use crate::error::ExtractError;
use crate::location::{range_slice, resolve};
use crate::tree::{preorder, visit, Data, ExpansionOrigin, Node, SourceLocation, SourceRange, Visitor};

verus! {

/// A location written in the file under analysis itself, not pulled in from a header.
pub open spec fn locally_defined(loc: SourceLocation) -> bool {
    match loc.expansion_origin {
        None => true,
        Some(origin) => origin.included_from is None,
    }
}

/// A node that yields an example: a named, locally defined function declaration.
pub open spec fn is_function_site(node: Node) -> bool {
    match node.kind {
        Data::FunctionDecl { name, loc, range } => name is Some && locally_defined(loc),
        Data::Other => false,
    }
}

/// Name and range of a function site.
pub open spec fn site_of(node: Node) -> (Seq<char>, SourceRange)
    recommends
        is_function_site(node),
{
    match node.kind {
        Data::FunctionDecl { name, loc, range } => (name.unwrap()@, range),
        Data::Other => (Seq::empty(), arbitrary()),
    }
}

/// The function sites among `nodes`, in order.
pub open spec fn sites_in(nodes: Seq<Node>) -> Seq<(Seq<char>, SourceRange)>
    decreases nodes.len(),
{
    if nodes.len() == 0 {
        Seq::empty()
    } else if is_function_site(nodes.last()) {
        sites_in(nodes.drop_last()).push(site_of(nodes.last()))
    } else {
        sites_in(nodes.drop_last())
    }
}

/// The traversal descends into every node but a function declaration: a
/// declaration nested in a function body is no example of its own.
pub open spec fn descends_into(node: Node) -> bool {
    node.kind is Other
}

/// Collects the function sites of a tree while it is visited.
pub struct FunctionFinder {
    pub sites: Vec<FunctionSite>,
    pub seen: Ghost<Seq<Node>>,
}

/// A function to extract: its name and the range of its definition.
pub struct FunctionSite {
    pub name: String,
    pub range: SourceRange,
}

pub open spec fn site_views(sites: Seq<FunctionSite>) -> Seq<(Seq<char>, SourceRange)> {
    sites.map_values(|s: FunctionSite| (s.name@, s.range))
}

fn copy_origin(o: &Option<ExpansionOrigin>) -> (r: Option<ExpansionOrigin>)
    ensures
        r == *o,
{
    match o {
        None => None,
        Some(origin) => {
            let included_from = match &origin.included_from {
                None => None,
                Some(f) => Some(f.clone()),
            };
            Some(ExpansionOrigin { included_from })
        },
    }
}

fn copy_range(r: &SourceRange) -> (c: SourceRange)
    ensures
        c == *r,
{
    SourceRange {
        begin: SourceLocation {
            offset: r.begin.offset,
            expansion_origin: copy_origin(&r.begin.expansion_origin),
        },
        end: SourceLocation {
            offset: r.end.offset,
            expansion_origin: copy_origin(&r.end.expansion_origin),
        },
    }
}

impl FunctionFinder {
    pub open spec fn wf(&self) -> bool {
        site_views(self.sites@) == sites_in(self.seen@)
    }

    pub fn new() -> (r: FunctionFinder)
        ensures
            r.wf(),
            r.seen@ == Seq::<Node>::empty(),
    {
        let r = FunctionFinder { sites: Vec::new(), seen: Ghost(Seq::empty()) };
        assert(site_views(r.sites@) =~= Seq::empty());
        r
    }
}

impl Visitor for FunctionFinder {
    open spec fn descends(node: Node) -> bool {
        descends_into(node)
    }

    open spec fn trace(&self) -> Seq<Node> {
        self.seen@
    }

    open spec fn inv(&self) -> bool {
        self.wf()
    }

    fn enter(&mut self, node: &Node) -> (r: crate::tree::DoRecurse) {
        let ghost before = self.seen@;
        self.seen = Ghost(before.push(*node));
        assert(self.seen@.drop_last() =~= before);
        match &node.kind {
            Data::FunctionDecl { name, loc, range } => {
                let local = match &loc.expansion_origin {
                    None => true,
                    Some(origin) => origin.included_from.is_none(),
                };
                if local {
                    if let Some(n) = name {
                        let ghost sites_before = self.sites@;
                        let site = FunctionSite { name: n.clone(), range: copy_range(range) };
                        self.sites.push(site);
                        assert(site_views(self.sites@) =~= site_views(sites_before).push(
                            site_of(*node),
                        ));
                    }
                }
                crate::tree::DoRecurse(false)
            },
            Data::Other => crate::tree::DoRecurse(true),
        }
    }
}

/// The function sites of a tree, in the order the traversal meets them.
pub open spec fn function_sites(tree: Node) -> Seq<(Seq<char>, SourceRange)> {
    sites_in(preorder::<FunctionFinder>(tree))
}

/// Collects the named, locally defined functions of `tree` in depth-first
/// pre-order, without looking inside function bodies.
pub fn find_functions(tree: &Node) -> (r: Vec<FunctionSite>)
    ensures
        site_views(r@) == function_sites(*tree),
{
    let mut finder = FunctionFinder::new();
    visit(tree, &mut finder);
    assert(finder.seen@ =~= preorder::<FunctionFinder>(*tree));
    finder.sites
}

/// One training example: a function's source text and its instruction lines.
pub struct FunctionExample {
    pub name: String,
    pub source_text: Vec<u8>,
    pub assembly_lines: Vec<String>,
}

/// What extraction made of one function site.
pub struct FunctionOutcome {
    pub name: String,
    pub result: Result<FunctionExample, ExtractError>,
}

/// The source text and instruction lines of the function `name` with the given
/// range, or why there are none: the range is checked first, then the block.
pub open spec fn example_outcome(
    name: Seq<char>,
    range: SourceRange,
    source: Seq<u8>,
    lines: Seq<Seq<char>>,
) -> Result<(Seq<u8>, Seq<Seq<char>>), ExtractError> {
    match range_slice(source, range) {
        None => Err(ExtractError::RangeOutOfBounds),
        Some(text) => {
            let block = assembly_block(lines, name);
            if block.len() == 0 {
                Err(ExtractError::FunctionNotEmitted)
            } else {
                Ok((text, block))
            }
        },
    }
}

pub open spec fn outcome_view(o: FunctionOutcome) -> (
    Seq<char>,
    Result<(Seq<u8>, Seq<Seq<char>>), ExtractError>,
) {
    (
        o.name@,
        match o.result {
            Ok(e) => Ok((e.source_text@, line_views(e.assembly_lines@))),
            Err(e) => Err(e),
        },
    )
}

pub open spec fn outcome_views(os: Seq<FunctionOutcome>) -> Seq<
    (Seq<char>, Result<(Seq<u8>, Seq<Seq<char>>), ExtractError>),
> {
    os.map_values(|o: FunctionOutcome| outcome_view(o))
}

/// One outcome per function site of `tree`, in traversal order.
pub open spec fn expected_outcomes(tree: Node, source: Seq<u8>, lines: Seq<Seq<char>>) -> Seq<
    (Seq<char>, Result<(Seq<u8>, Seq<Seq<char>>), ExtractError>),
> {
    function_sites(tree).map_values(
        |s: (Seq<char>, SourceRange)| (s.0, example_outcome(s.0, s.1, source, lines)),
    )
}

/// Resolves the site's source text, then finds its instruction block.
pub fn extract_function(
    site: &FunctionSite,
    source: &[u8],
    lines: &Vec<String>,
    matcher: &HeaderMatcher,
) -> (r: FunctionOutcome)
    ensures
        outcome_view(r) == (
            site.name@,
            example_outcome(site.name@, site.range, source@, line_views(lines@)),
        ),
{
    let name = site.name.clone();
    let result = match resolve(source, &site.range) {
        Err(e) => Err(e),
        Ok(text) => match find_block(lines, &site.name, matcher) {
            Err(e) => Err(e),
            Ok(block) => Ok(
                FunctionExample { name: site.name.clone(), source_text: text, assembly_lines: block },
            ),
        },
    };
    FunctionOutcome { name, result }
}

/// Extracts every function site of `tree` against already split disassembly lines.
pub fn extract_from_lines(
    tree: &Node,
    source: &[u8],
    lines: &Vec<String>,
    matcher: &HeaderMatcher,
) -> (r: Vec<FunctionOutcome>)
    ensures
        outcome_views(r@) == expected_outcomes(*tree, source@, line_views(lines@)),
{
    let sites = find_functions(tree);
    let ghost want = expected_outcomes(*tree, source@, line_views(lines@));
    let mut outcomes: Vec<FunctionOutcome> = Vec::new();
    let mut i: usize = 0;
    while i < sites.len()
        invariant
            0 <= i <= sites.len(),
            site_views(sites@) == function_sites(*tree),
            want == expected_outcomes(*tree, source@, line_views(lines@)),
            want.len() == sites.len(),
            outcome_views(outcomes@) == want.subrange(0, i as int),
        decreases sites.len() - i,
    {
        let o = extract_function(&sites[i], source, lines, matcher);
        let ghost before = outcomes@;
        assert(site_views(sites@)[i as int] == (sites@[i as int].name@, sites@[i as int].range));
        outcomes.push(o);
        i = i + 1;
        assert(outcome_views(outcomes@) =~= outcome_views(before).push(outcome_view(o)));
        assert(outcome_views(outcomes@) =~= want.subrange(0, i as int));
    }
    assert(want.subrange(0, i as int) =~= want);
    outcomes
}

/// Extracts every named, locally defined function of `tree`: its source text is
/// the byte span of its range in `source`, its instructions the block of its
/// symbol in `disassembly`. One outcome per function, in traversal order.
pub fn extract_examples(
    tree: &Node,
    source: &[u8],
    disassembly: &str,
    matcher: &HeaderMatcher,
) -> (r: Vec<FunctionOutcome>)
    ensures
        outcome_views(r@) == expected_outcomes(*tree, source@, text_lines(disassembly@)),
{
    let lines = split_lines(disassembly);
    extract_from_lines(tree, source, &lines, matcher)
}

} // verus!
