//! The authorization tree of a call: which contract functions were
//! authorized, and which sub-invocations each of them authorized in turn.

use crate::error::DebuggerError;
use crate::text::texts;
use vstd::prelude::*;
use vstd::string::*;

verus! {

/// One authorized invocation and, in call order, the invocations made
/// under it.
#[derive(Debug, PartialEq, Eq)]
pub struct AuthNode {
    /// The signature of the authorized function.
    pub function: String,
    /// The contract that the function belongs to.
    pub contract_id: String,
    /// The invocations authorized from within this one, in call order.
    pub sub_invocations: Vec<AuthNode>,
}

/// The lower-case hexadecimal digit for `v`.
pub open spec fn spec_hex_digit(v: int) -> char {
    if v == 0 {
        '0'
    } else if v == 1 {
        '1'
    } else if v == 2 {
        '2'
    } else if v == 3 {
        '3'
    } else if v == 4 {
        '4'
    } else if v == 5 {
        '5'
    } else if v == 6 {
        '6'
    } else if v == 7 {
        '7'
    } else if v == 8 {
        '8'
    } else if v == 9 {
        '9'
    } else if v == 10 {
        'a'
    } else if v == 11 {
        'b'
    } else if v == 12 {
        'c'
    } else if v == 13 {
        'd'
    } else if v == 14 {
        'e'
    } else {
        'f'
    }
}

/// How one character stands inside a JSON string: the quote and the
/// backslash behind a backslash, a control character as its short escape or
/// as `\u00` and two hexadecimal digits, any other character as itself.
pub open spec fn escape_char(c: char) -> Seq<char> {
    if c == '"' {
        seq!['\\', '"']
    } else if c == '\\' {
        seq!['\\', '\\']
    } else if c == '\n' {
        seq!['\\', 'n']
    } else if c == '\r' {
        seq!['\\', 'r']
    } else if c == '\t' {
        seq!['\\', 't']
    } else if c == '\u{8}' {
        seq!['\\', 'b']
    } else if c == '\u{c}' {
        seq!['\\', 'f']
    } else if (c as u32) < 0x20 {
        seq![
            '\\',
            'u',
            '0',
            '0',
            spec_hex_digit((c as u32) as int / 16),
            spec_hex_digit((c as u32) as int % 16),
        ]
    } else {
        seq![c]
    }
}

/// The characters of `s`, each as it stands inside a JSON string.
pub open spec fn escape(s: Seq<char>) -> Seq<char>
    decreases s.len(),
{
    if s.len() == 0 {
        Seq::empty()
    } else {
        escape(s.drop_last()) + escape_char(s.last())
    }
}

/// `s` as a JSON string: escaped, between double quotes.
pub open spec fn json_string(s: Seq<char>) -> Seq<char> {
    seq!['"'] + escape(s) + seq!['"']
}

/// `{"function":`
pub open spec fn key_function() -> Seq<char> {
    seq!['{', '"', 'f', 'u', 'n', 'c', 't', 'i', 'o', 'n', '"', ':']
}

/// `,"contract_id":`
pub open spec fn key_contract_id() -> Seq<char> {
    seq![',', '"', 'c', 'o', 'n', 't', 'r', 'a', 'c', 't', '_', 'i', 'd', '"', ':']
}

/// `,"sub_invocations":`
pub open spec fn key_sub_invocations() -> Seq<char> {
    seq![
        ',',
        '"',
        's',
        'u',
        'b',
        '_',
        'i',
        'n',
        'v',
        'o',
        'c',
        'a',
        't',
        'i',
        'o',
        'n',
        's',
        '"',
        ':',
    ]
}

/// A node as a JSON object with the fields `function`, `contract_id` and
/// `sub_invocations`, in that order and without white space.
pub open spec fn json_node(node: AuthNode) -> Seq<char>
    decreases node,
{
    key_function() + json_string(node.function@) + key_contract_id() + json_string(
        node.contract_id@,
    ) + key_sub_invocations() + seq!['['] + json_items(node.sub_invocations@) + seq![']', '}']
}

/// The nodes as JSON objects, in order, with a comma between neighbours.
pub open spec fn json_items(nodes: Seq<AuthNode>) -> Seq<char>
    decreases nodes,
{
    if nodes.len() == 0 {
        Seq::empty()
    } else if nodes.len() == 1 {
        json_node(nodes.last())
    } else {
        json_items(nodes.drop_last()) + seq![','] + json_node(nodes.last())
    }
}

/// The nodes as a JSON array.
pub open spec fn json_array(nodes: Seq<AuthNode>) -> Seq<char> {
    seq!['['] + json_items(nodes) + seq![']']
}

/// `count` spaces.
pub open spec fn spaces(count: nat) -> Seq<char> {
    Seq::new(count, |i: int| ' ')
}

/// The line that shows a node at `depth`: two spaces for each level, then
/// `function (contract_id)`.
pub open spec fn render_line(node: AuthNode, depth: nat) -> Seq<char> {
    spaces(2 * depth) + node.function@ + seq![' ', '('] + node.contract_id@ + seq![')']
}

/// The lines that show a node and everything under it: the node's own line
/// first, then its sub-invocations one level deeper, in order.
pub open spec fn render_node(node: AuthNode, depth: nat) -> Seq<Seq<char>>
    decreases node,
{
    seq![render_line(node, depth)] + render_nodes(node.sub_invocations@, depth + 1)
}

/// The lines that show the nodes, in order, all at `depth`.
pub open spec fn render_nodes(nodes: Seq<AuthNode>, depth: nat) -> Seq<Seq<char>>
    decreases nodes,
{
    if nodes.len() == 0 {
        Seq::empty()
    } else {
        render_nodes(nodes.drop_last(), depth) + render_node(nodes.last(), depth)
    }
}

/// The lower-case hexadecimal digit for `v`.
fn hex_digit(v: u32) -> (c: char)
    requires
        v < 16,
    ensures
        c == spec_hex_digit(v as int),
{
    if v == 0 {
        '0'
    } else if v == 1 {
        '1'
    } else if v == 2 {
        '2'
    } else if v == 3 {
        '3'
    } else if v == 4 {
        '4'
    } else if v == 5 {
        '5'
    } else if v == 6 {
        '6'
    } else if v == 7 {
        '7'
    } else if v == 8 {
        '8'
    } else if v == 9 {
        '9'
    } else if v == 10 {
        'a'
    } else if v == 11 {
        'b'
    } else if v == 12 {
        'c'
    } else if v == 13 {
        'd'
    } else if v == 14 {
        'e'
    } else {
        'f'
    }
}

/// Appends one character as it stands inside a JSON string.
fn push_escaped_char(out: &mut String, c: char)
    ensures
        final(out)@ == old(out)@ + escape_char(c),
{
    if c == '"' {
        out.push('\\');
        out.push('"');
    } else if c == '\\' {
        out.push('\\');
        out.push('\\');
    } else if c == '\n' {
        out.push('\\');
        out.push('n');
    } else if c == '\r' {
        out.push('\\');
        out.push('r');
    } else if c == '\t' {
        out.push('\\');
        out.push('t');
    } else if c == '\u{8}' {
        out.push('\\');
        out.push('b');
    } else if c == '\u{c}' {
        out.push('\\');
        out.push('f');
    } else if (c as u32) < 0x20 {
        out.push('\\');
        out.push('u');
        out.push('0');
        out.push('0');
        out.push(hex_digit((c as u32) / 16));
        out.push(hex_digit((c as u32) % 16));
    } else {
        out.push(c);
    }
}

/// Appends `s` as a JSON string: escaped, between double quotes.
fn push_json_string(out: &mut String, s: &str)
    ensures
        final(out)@ == old(out)@ + json_string(s@),
{
    let ghost before = out@;
    out.push('"');
    let chars = s.chars();
    for c in it: chars
        invariant
            it.seq() == s@,
            out@ == before.push('"') + escape(s@.take(it.index())),
    {
        proof {
            assert(s@.take(it.index() + 1).drop_last() =~= s@.take(it.index()));
        }
        push_escaped_char(out, c);
    }
    proof {
        assert(s@.take(s@.len() as int) =~= s@);
    }
    out.push('"');
}

/// Appends a node as a JSON object.
fn write_node(out: &mut String, node: &AuthNode)
    ensures
        final(out)@ == old(out)@ + json_node(*node),
    decreases node,
{
    proof {
        reveal_strlit("{\"function\":");
        reveal_strlit(",\"contract_id\":");
        reveal_strlit(",\"sub_invocations\":[");
        reveal_strlit("]}");
    }
    out.append("{\"function\":");
    push_json_string(out, node.function.as_str());
    out.append(",\"contract_id\":");
    push_json_string(out, node.contract_id.as_str());
    let ghost with_contract = out@;
    out.append(",\"sub_invocations\":[");
    assert(out@ =~= with_contract + key_sub_invocations() + seq!['[']);
    write_items(out, &node.sub_invocations);
    let ghost with_items = out@;
    out.append("]}");
    assert(out@ =~= with_items + seq![']', '}']);
}

/// Appends the nodes as JSON objects with a comma between neighbours.
fn write_items(out: &mut String, nodes: &Vec<AuthNode>)
    ensures
        final(out)@ == old(out)@ + json_items(nodes@),
    decreases nodes,
{
    let ghost before = out@;
    let mut i: usize = 0;
    while i < nodes.len()
        invariant
            i <= nodes@.len(),
            out@ == before + json_items(nodes@.take(i as int)),
        decreases nodes@.len() - i,
    {
        if i > 0 {
            out.push(',');
        }
        write_node(out, &nodes[i]);
        proof {
            assert(nodes@.take(i + 1).drop_last() =~= nodes@.take(i as int));
        }
        i = i + 1;
    }
    proof {
        assert(nodes@.take(nodes@.len() as int) =~= nodes@);
    }
}

/// Appends the lines that show a node and everything under it.
fn render_node_into(lines: &mut Vec<String>, node: &AuthNode, indent: &str, depth: Ghost<nat>)
    requires
        indent@ == spaces(2 * depth@),
    ensures
        texts(final(lines)@) == texts(old(lines)@) + render_node(*node, depth@),
    decreases node,
{
    let mut line = indent.to_owned();
    proof {
        reveal_strlit(" (");
        reveal_strlit(")");
        reveal_strlit("  ");
    }
    line.append(node.function.as_str());
    line.append(" (");
    line.append(node.contract_id.as_str());
    line.append(")");
    assert(line@ =~= render_line(*node, depth@));
    lines.push(line);
    let mut deeper = indent.to_owned();
    deeper.append("  ");
    assert(deeper@ =~= spaces(2 * (depth@ + 1)));
    render_nodes_into(lines, &node.sub_invocations, deeper.as_str(), Ghost(depth@ + 1));
}

/// Appends the lines that show the nodes, all at the same depth.
fn render_nodes_into(lines: &mut Vec<String>, nodes: &Vec<AuthNode>, indent: &str, depth: Ghost<nat>)
    requires
        indent@ == spaces(2 * depth@),
    ensures
        texts(final(lines)@) == texts(old(lines)@) + render_nodes(nodes@, depth@),
    decreases nodes,
{
    let ghost before = texts(lines@);
    let mut i: usize = 0;
    while i < nodes.len()
        invariant
            i <= nodes@.len(),
            indent@ == spaces(2 * depth@),
            texts(lines@) == before + render_nodes(nodes@.take(i as int), depth@),
        decreases nodes@.len() - i,
    {
        render_node_into(lines, &nodes[i], indent, depth);
        proof {
            assert(nodes@.take(i + 1).drop_last() =~= nodes@.take(i as int));
        }
        i = i + 1;
    }
    proof {
        assert(nodes@.take(nodes@.len() as int) =~= nodes@);
    }
}

/// Turns authorization trees into their external forms.
pub struct AuthInspector;

impl AuthInspector {
    /// The trees as a JSON array of objects with the fields `function`,
    /// `contract_id` and `sub_invocations`, nested as the trees are and in
    /// their order. Every tree can be written, so the outcome is `Ok`.
    pub fn to_json(nodes: &Vec<AuthNode>) -> (r: Result<String, DebuggerError>)
        ensures
            r matches Ok(s) && s@ == json_array(nodes@),
    {
        let mut out = String::new();
        out.push('[');
        write_items(&mut out, nodes);
        out.push(']');
        Ok(out)
    }

    /// The trees as indented text: one line per node, a node before its
    /// sub-invocations, each level two spaces deeper than the one above.
    pub fn render(nodes: &Vec<AuthNode>) -> (lines: Vec<String>)
        ensures
            texts(lines@) == render_nodes(nodes@, 0),
            lines@.len() == forest_count(nodes@),
    {
        let mut lines: Vec<String> = Vec::new();
        assert(spaces(0) =~= ""@) by {
            reveal_strlit("");
        }
        render_nodes_into(&mut lines, nodes, "", Ghost(0));
        proof {
            lemma_one_line_per_node(nodes@, 0);
        }
        lines
    }
}

/// Rendering yields exactly one line for every node of the trees.
pub proof fn lemma_one_line_per_node(nodes: Seq<AuthNode>, depth: nat)
    ensures
        render_nodes(nodes, depth).len() == forest_count(nodes),
    decreases nodes,
{
    if nodes.len() > 0 {
        let last = nodes.last();
        lemma_one_line_per_node(nodes.drop_last(), depth);
        lemma_one_line_per_node(last.sub_invocations@, depth + 1);
        assert(render_node(last, depth) == seq![render_line(last, depth)] + render_nodes(
            last.sub_invocations@,
            depth + 1,
        ));
        assert(node_count(last) == 1 + forest_count(last.sub_invocations@));
    }
}

/// How many nodes a tree holds.
pub open spec fn node_count(node: AuthNode) -> nat
    decreases node,
{
    1 + forest_count(node.sub_invocations@)
}

/// How many nodes the trees hold together.
pub open spec fn forest_count(nodes: Seq<AuthNode>) -> nat
    decreases nodes,
{
    if nodes.len() == 0 {
        0
    } else {
        forest_count(nodes.drop_last()) + node_count(nodes.last())
    }
}

} // verus!
