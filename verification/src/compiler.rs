//! The script compiler: turns source text into a scene graph.
use vstd::prelude::*;
use vstd::seq_lib::*;

use crate::context::FTContext;
use crate::expression::FTExpressionRole;
use crate::fixed::{fp_units, FP_SCALE};
use crate::node::{Node, NodeRole, NodeSubRole};
use crate::scanner::{Scanner, Token, TokenType};
use crate::text::{chars_match_str, chars_match_str_ci, chars_of, hex_digit_val,
    spec_decimal_value, spec_hex_digit_val, string_of};
use crate::value::FTValueRole;

verus! {

/// A compile failure: a message and the 1-based source line it points at.
#[derive(Clone, Debug)]
pub struct FTError {
    pub description: String,
    pub line: u32,
}

impl FTError {
    pub fn new(description: String, line: u32) -> (r: Self)
        ensures
            r.description == description,
            r.line == line,
    {
        FTError { description, line }
    }
}

/// The token window and the first error of a parse.
pub struct Parser {
    pub current: Token,
    pub previous: Token,
    pub error: Option<FTError>,
}

impl Parser {
    pub fn new() -> (r: Self)
        ensures
            r.error is None,
    {
        Parser {
            current: Token::synthetic(String::new()),
            previous: Token::synthetic(String::new()),
            error: None,
        }
    }
}

/// Compiles script text into an `FTContext` scene graph.
pub struct Compiler {
    pub scanner: Scanner,
    pub parser: Parser,
    pub curr_parent: Option<usize>,
}

/// An end-of-text token in the window means the whole text was consumed.
pub open spec fn cursor_synced(c: Compiler) -> bool {
    c.parser.current.kind == TokenType::Eof ==> c.scanner.pos == c.scanner.chars@.len()
}

/// Facts every compiler step preserves: a well-formed cursor over unchanged
/// text that never moves backwards, an error that never clears, and an
/// end-of-text window that stays tied to a consumed text.
pub open spec fn steady(pre: Compiler, post: Compiler) -> bool {
    &&& post.scanner.wf()
    &&& post.scanner.chars@ == pre.scanner.chars@
    &&& post.scanner.pos >= pre.scanner.pos
    &&& (pre.parser.error is Some ==> post.parser.error == pre.parser.error)
    &&& (cursor_synced(pre) ==> cursor_synced(post))
}

/// A step that cannot stall: it consumed input, reached the end of the
/// text, or recorded an error.
pub open spec fn progressed(pre: Compiler, post: Compiler) -> bool {
    ||| post.scanner.pos > pre.scanner.pos
    ||| post.parser.current.kind == TokenType::Eof
    ||| post.parser.error is Some
}

/// The whole-unit id a decimal literal denotes.
pub open spec fn spec_literal_id(s: Seq<char>) -> int {
    crate::fixed::fp_units_spec(crate::text::spec_decimal_value(s))
}

/// A declaration that appended nothing: the graph, the bindings, the
/// partitions and the suppressed ids are untouched; only the render-target
/// marker may have been claimed before the error was found.
pub open spec fn declaration_no_node(pre: FTContext, post: FTContext) -> bool {
    &&& post.nodes == pre.nodes
    &&& post.variables == pre.variables
    &&& post.shapes == pre.shapes
    &&& post.patterns == pre.patterns
    &&& post.faces == pre.faces
    &&& post.materials == pre.materials
    &&& post.meta_delete == pre.meta_delete
    &&& (post.output == pre.output || post.output == Some(pre.nodes@.len() as usize))
}

/// The new node's index entered exactly the partition list of its role;
/// meta nodes enter none.
pub open spec fn partition_updated(pre: FTContext, post: FTContext) -> bool {
    let b = (pre.nodes@.len() % 256) as u8;
    &&& (post.nodes@.last().role == NodeRole::Shape ==> post.shapes@ == pre.shapes@.push(b)
        && post.patterns == pre.patterns && post.faces == pre.faces && post.materials
        == pre.materials)
    &&& (post.nodes@.last().role == NodeRole::Pattern ==> post.patterns@ == pre.patterns@.push(b)
        && post.shapes == pre.shapes && post.faces == pre.faces && post.materials
        == pre.materials)
    &&& (post.nodes@.last().role == NodeRole::Face ==> post.faces@ == pre.faces@.push(b)
        && post.shapes == pre.shapes && post.patterns == pre.patterns && post.materials
        == pre.materials)
    &&& (post.nodes@.last().role == NodeRole::Material ==> post.materials@ == pre.materials@.push(
        b,
    ) && post.shapes == pre.shapes && post.patterns == pre.patterns && post.faces == pre.faces)
    &&& (post.nodes@.last().role == NodeRole::Meta ==> post.shapes == pre.shapes && post.patterns
        == pre.patterns && post.faces == pre.faces && post.materials == pre.materials)
}

/// A declaration that compiled: exactly one node was appended, its name
/// bound to its index, its index pushed onto the partition list of its
/// role, the suppressed ids extended only by a meta-delete node, and the
/// render-target marker either kept or set to the new node.
pub open spec fn declaration_one_node(pre: FTContext, post: FTContext) -> bool {
    &&& post.nodes@.len() == pre.nodes@.len() + 1
    &&& post.nodes@.subrange(0, pre.nodes@.len() as int) == pre.nodes@
    &&& post.variables@ == pre.variables@.push(
        (post.nodes@.last().name, pre.nodes@.len() as usize),
    )
    &&& (post.output == pre.output || post.output == Some(pre.nodes@.len() as usize))
    &&& partition_updated(pre, post)
    &&& (post.nodes@.last().sub_role == NodeSubRole::MetaDelete
        ==> pre.meta_delete@.is_prefix_of(post.meta_delete@))
    &&& (post.nodes@.last().sub_role != NodeSubRole::MetaDelete ==> post.meta_delete
        == pre.meta_delete)
}

/// What one declaration does to the scene graph, whichever way it ends.
pub open spec fn declaration_effect(pre: FTContext, post: FTContext) -> bool {
    declaration_no_node(pre, post) || declaration_one_node(pre, post)
}

/// A declaration step keeps every earlier node, binding and suppressed id
/// in place, so the graph only ever grows.
pub proof fn lemma_declaration_keeps_prefixes(base: FTContext, pre: FTContext, post: FTContext)
    requires
        base.nodes@.is_prefix_of(pre.nodes@),
        base.variables@.is_prefix_of(pre.variables@),
        base.meta_delete@.is_prefix_of(pre.meta_delete@),
        declaration_effect(pre, post),
    ensures
        base.nodes@.is_prefix_of(post.nodes@),
        base.variables@.is_prefix_of(post.variables@),
        base.meta_delete@.is_prefix_of(post.meta_delete@),
{
    if declaration_one_node(pre, post) {
        assert(post.nodes@.subrange(0, base.nodes@.len() as int) =~= pre.nodes@.subrange(
            0,
            base.nodes@.len() as int,
        )) by {
            assert(forall|i: int|
                0 <= i < base.nodes@.len() ==> post.nodes@[i] == post.nodes@.subrange(
                    0,
                    pre.nodes@.len() as int,
                )[i]);
        };
        assert(post.variables@.subrange(0, base.variables@.len() as int)
            =~= pre.variables@.subrange(0, base.variables@.len() as int));
        if post.nodes@.last().sub_role == NodeSubRole::MetaDelete {
            assert(post.meta_delete@.subrange(0, base.meta_delete@.len() as int)
                =~= pre.meta_delete@.subrange(0, base.meta_delete@.len() as int)) by {
                assert(forall|i: int|
                    0 <= i < base.meta_delete@.len() ==> post.meta_delete@[i]
                        == post.meta_delete@.subrange(0, pre.meta_delete@.len() as int)[i]);
            };
        }
    }
}

impl Default for Compiler {
    fn default() -> (r: Self)
        ensures
            r.wf(),
            r.parser.error is None,
    {
        Compiler::new()
    }
}

impl Compiler {
    /// The scanner cursor stays within the text.
    pub open spec fn wf(&self) -> bool {
        self.scanner.wf()
    }

    pub fn new() -> (r: Self)
        ensures
            r.wf(),
            r.parser.error is None,
    {
        Compiler {
            scanner: Scanner::new(String::new()),
            parser: Parser::new(),
            curr_parent: None,
        }
    }

    /// Compile the given code. Success consumes the whole text: an `Ok`
    /// leaves the cursor one past the last character with an end-of-text
    /// window, and an `Err` carries the first recorded error with its
    /// source line, fail-fast.
    pub fn compile(&mut self, code: String) -> (r: Result<FTContext, FTError>)
        ensures
            final(self).wf(),
            final(self).scanner.chars@ == code@,
            (r is Ok) == (final(self).parser.error is None),
            r is Ok ==> final(self).parser.current.kind == TokenType::Eof
                && final(self).scanner.pos == code@.len(),
            r is Err ==> (final(self).parser.error matches Some(e0)
                && r->Err_0.description@ == e0.description@ && r->Err_0.line == e0.line),
    {
        let mut context = FTContext::new();
        self.scanner = Scanner::new(code);
        self.parser = Parser::new();
        self.curr_parent = None;
        self.parse(&mut context);
        match &self.parser.error {
            Some(e) => Err(FTError::new(e.description.clone(), e.line)),
            None => Ok(context),
        }
    }

    /// Parse the code and add the content to the context: declarations are
    /// compiled until the text is consumed or the first error stops the
    /// parse, so an error-free parse has read the whole text.
    pub fn parse(&mut self, ctx: &mut FTContext)
        requires
            old(self).wf(),
        ensures
            steady(*old(self), *final(self)),
            final(self).parser.error is None ==> final(self).parser.current.kind == TokenType::Eof
                && final(self).scanner.pos == final(self).scanner.chars@.len(),
            old(ctx).nodes@.is_prefix_of(final(ctx).nodes@),
            old(ctx).variables@.is_prefix_of(final(ctx).variables@),
            old(ctx).meta_delete@.is_prefix_of(final(ctx).meta_delete@),
    {
        self.advance();
        loop
            invariant_except_break
                self.wf(),
                steady(*old(self), *self),
                cursor_synced(*self),
                old(ctx).nodes@.is_prefix_of(ctx.nodes@),
                old(ctx).variables@.is_prefix_of(ctx.variables@),
                old(ctx).meta_delete@.is_prefix_of(ctx.meta_delete@),
            ensures
                self.wf(),
                steady(*old(self), *self),
                self.parser.error is None ==> self.parser.current.kind == TokenType::Eof
                    && self.scanner.pos == self.scanner.chars@.len(),
                old(ctx).nodes@.is_prefix_of(ctx.nodes@),
                old(ctx).variables@.is_prefix_of(ctx.variables@),
                old(ctx).meta_delete@.is_prefix_of(ctx.meta_delete@),
            decreases
                    self.scanner.chars@.len() - self.scanner.pos,
                    (if self.parser.current.kind == TokenType::Eof {
                        0int
                    } else {
                        1int
                    }),
        {
            if self.matches(TokenType::Eof) {
                break ;
            }
            if self.current().kind == TokenType::Let {
                let ghost pre = *ctx;
                self.declaration(ctx);
                proof {
                    lemma_declaration_keeps_prefixes(*old(ctx), pre, *ctx);
                }
            } else {
                let msg = self.message_with_lexeme("Unknown instruction '", "'.");
                self.error_at_current(msg.as_str());
            }
            if self.has_error() {
                break ;
            }
        }
    }

    /// Declaration (let): an error-free run appends exactly one compiled
    /// node with its binding and partition entry; any failure leaves the
    /// graph as it was, the first error recorded.
    #[verifier::rlimit(100)]
    #[verifier::spinoff_prover]
    fn declaration(&mut self, ctx: &mut FTContext)
        requires
            old(self).wf(),
        ensures
            steady(*old(self), *final(self)),
            progressed(*old(self), *final(self)),
            declaration_effect(*old(ctx), *final(ctx)),
            final(self).parser.error is None ==> declaration_one_node(*old(ctx), *final(ctx)),
    {
        self.advance();
        let target: String = match self.consume(
            TokenType::Identifier,
            "Expected an identifier after 'let'.",
        ) {
            Some(t) => t,
            None => {
                return ;
            },
        };
        self.consume(TokenType::Equal, "Expected '='.");
        let node_type: String = match self.consume(
            TokenType::Identifier,
            "Expected an identifier after 'let'.",
        ) {
            Some(t) => t,
            None => {
                return ;
            },
        };
        let mut node: Option<Node> = None;
        let tv: Vec<char> = chars_of(node_type.as_str());
        if chars_match_str(&tv, "Shape") {
            if self.check(TokenType::Star) {
                ctx.output = Some(ctx.nodes.len());
                self.advance();
            }
            self.consume(TokenType::Less, "Expected '<'.");
            if let Some(shape) = self.consume(
                TokenType::Identifier,
                "Expected a valid shape after 'Shape'.",
            ) {
                let sv: Vec<char> = chars_of(shape.as_str());
                if chars_match_str(&sv, "Box") {
                    node = Some(Node::new(NodeRole::Shape, NodeSubRole::Box));
                } else if chars_match_str(&sv, "Disc") {
                    node = Some(Node::new(NodeRole::Shape, NodeSubRole::Disc));
                } else {
                    let msg = Self::join3("Unknown shape '", shape.as_str(), "'.");
                    self.error_at_current(msg.as_str());
                }
            }
        } else if chars_match_str(&tv, "Pattern") {
            if self.check(TokenType::Star) {
                ctx.output = Some(ctx.nodes.len());
                self.advance();
            }
            self.consume(TokenType::Less, "Expected '<'.");
            if let Some(pattern) = self.consume(
                TokenType::Identifier,
                "Expected a valid pattern after 'Pattern'.",
            ) {
                let sv: Vec<char> = chars_of(pattern.as_str());
                if chars_match_str(&sv, "Repeat") {
                    node = Some(Node::new(NodeRole::Pattern, NodeSubRole::Repeat));
                } else if chars_match_str(&sv, "Offset") {
                    node = Some(Node::new(NodeRole::Pattern, NodeSubRole::Offset));
                } else if chars_match_str(&sv, "Stack") {
                    node = Some(Node::new(NodeRole::Pattern, NodeSubRole::Stack));
                } else if chars_match_str(&sv, "Group") {
                    node = Some(Node::new(NodeRole::Pattern, NodeSubRole::Group));
                } else {
                    let msg = Self::join3("Unknown pattern '", pattern.as_str(), "'.");
                    self.error_at_current(msg.as_str());
                }
            }
        } else if chars_match_str(&tv, "Face") {
            if self.check(TokenType::Star) {
                ctx.output = Some(ctx.nodes.len());
                self.advance();
            }
            self.consume(TokenType::Less, "Expected '<'.");
            if let Some(face) = self.consume(
                TokenType::Identifier,
                "Expected a valid face after 'Face'.",
            ) {
                let sv: Vec<char> = chars_of(face.as_str());
                if chars_match_str(&sv, "Floor") {
                    node = Some(Node::new(NodeRole::Face, NodeSubRole::Floor));
                } else if chars_match_str(&sv, "Left") {
                    node = Some(Node::new(NodeRole::Face, NodeSubRole::Left));
                } else if chars_match_str(&sv, "Front") {
                    node = Some(Node::new(NodeRole::Face, NodeSubRole::Front));
                } else if chars_match_str(&sv, "Right") {
                    node = Some(Node::new(NodeRole::Face, NodeSubRole::Right));
                } else if chars_match_str(&sv, "Back") {
                    node = Some(Node::new(NodeRole::Face, NodeSubRole::Back));
                } else if chars_match_str(&sv, "MiddleX") {
                    node = Some(Node::new(NodeRole::Face, NodeSubRole::MiddleX));
                } else if chars_match_str(&sv, "MiddleY") {
                    node = Some(Node::new(NodeRole::Face, NodeSubRole::MiddleY));
                } else {
                    let msg = Self::join3("Unknown face '", face.as_str(), "'.");
                    self.error_at_current(msg.as_str());
                }
            }
        } else if chars_match_str(&tv, "Material") {
            if self.check(TokenType::Star) {
                ctx.output = Some(ctx.nodes.len());
                self.advance();
            }
            self.consume(TokenType::Less, "Expected '<'.");
            if let Some(material) = self.consume(
                TokenType::Identifier,
                "Expected a valid material after 'Material'.",
            ) {
                let sv: Vec<char> = chars_of(material.as_str());
                if chars_match_str(&sv, "BSDF") {
                    node = Some(Node::new(NodeRole::Material, NodeSubRole::BSDF));
                } else {
                    let msg = Self::join3("Unknown material '", material.as_str(), "'.");
                    self.error_at_current(msg.as_str());
                }
            }
        } else if chars_match_str(&tv, "Meta") {
            self.consume(TokenType::Less, "Expected '<'.");
            if let Some(meta) = self.consume(
                TokenType::Identifier,
                "Expected a valid meta directive after 'Meta'.",
            ) {
                let sv: Vec<char> = chars_of(meta.as_str());
                if chars_match_str(&sv, "Material") {
                    node = Some(Node::new(NodeRole::Meta, NodeSubRole::MetaMaterial));
                } else if chars_match_str(&sv, "Delete") {
                    node = Some(Node::new(NodeRole::Meta, NodeSubRole::MetaDelete));
                } else {
                    let msg = Self::join3("Unknown meta directive '", meta.as_str(), "'.");
                    self.error_at_current(msg.as_str());
                }
            }
        } else {
            let msg = Self::join3("Unknown type '", node_type.as_str(), "'.");
            self.error_at_current(msg.as_str());
        }
        proof {
            assert(self.parser.error is None ==> node is Some);
        }
        self.consume(TokenType::Greater, "Expected '>'.");
        if !self.has_error() {
            if let Some(mut node) = node {
                node.name = target.clone();
                ctx.variable_insert(target, ctx.nodes.len());
                self.parse_node_properties(&mut node, ctx);
                let index_u8: u8 = (ctx.nodes.len() % 256) as u8;
                match node.role {
                    NodeRole::Shape => ctx.shapes.push(index_u8),
                    NodeRole::Pattern => ctx.patterns.push(index_u8),
                    NodeRole::Face => ctx.faces.push(index_u8),
                    NodeRole::Material => ctx.materials.push(index_u8),
                    _ => {},
                }
                let ghost gnode = node;
                ctx.nodes.push(node);
                proof {
                    assert(ctx.nodes@.last() == gnode);
                    assert(ctx.nodes@.subrange(0, old(ctx).nodes@.len() as int) =~= old(
                        ctx,
                    ).nodes@);
                    assert(ctx.nodes@.len() == old(ctx).nodes@.len() + 1);
                    assert(ctx.variables@ == old(ctx).variables@.push(
                        (ctx.nodes@.last().name, old(ctx).nodes@.len() as usize),
                    ));
                    assert(partition_updated(*old(ctx), *ctx));
                    assert(declaration_one_node(*old(ctx), *ctx));
                }
            }
        }
    }

    /// Parses the properties for the given node. Only the node under
    /// construction gains values, expressions, links, map entries or a
    /// material; its name and roles stay, and of the context only the
    /// suppressed ids grow, and only for a meta-delete node.
    fn parse_node_properties(&mut self, node: &mut Node, ctx: &mut FTContext)
        requires
            old(self).wf(),
        ensures
            steady(*old(self), *final(self)),
            final(ctx).nodes == old(ctx).nodes,
            final(ctx).variables == old(ctx).variables,
            final(ctx).shapes == old(ctx).shapes,
            final(ctx).patterns == old(ctx).patterns,
            final(ctx).faces == old(ctx).faces,
            final(ctx).materials == old(ctx).materials,
            final(ctx).output == old(ctx).output,
            old(ctx).meta_delete@.is_prefix_of(final(ctx).meta_delete@),
            old(node).sub_role != NodeSubRole::MetaDelete ==> final(ctx).meta_delete == old(
                ctx,
            ).meta_delete,
            final(node).name == old(node).name,
            final(node).role == old(node).role,
            final(node).sub_role == old(node).sub_role,
    {
        if self.check(TokenType::Colon) {
            self.advance();
        }
        proof {
            assert(ctx.meta_delete@.is_prefix_of(ctx.meta_delete@));
        }
        while !self.check(TokenType::Eof)
            invariant
                self.wf(),
                steady(*old(self), *self),
                ctx.nodes == old(ctx).nodes,
                ctx.variables == old(ctx).variables,
                ctx.shapes == old(ctx).shapes,
                ctx.patterns == old(ctx).patterns,
                ctx.faces == old(ctx).faces,
                ctx.materials == old(ctx).materials,
                ctx.output == old(ctx).output,
                old(ctx).meta_delete@.is_prefix_of(ctx.meta_delete@),
                old(node).sub_role != NodeSubRole::MetaDelete ==> ctx.meta_delete == old(
                    ctx,
                ).meta_delete,
                node.name == old(node).name,
                node.role == old(node).role,
                node.sub_role == old(node).sub_role,
            decreases
                    self.scanner.chars@.len() - self.scanner.pos,
                    (if self.parser.current.kind == TokenType::Eof {
                        0int
                    } else {
                        1int
                    }),
        {
            let ghost it_pos: int = self.scanner.pos as int;
            if self.check(TokenType::Semicolon) {
                self.advance();
                break ;
            } else if self.check(TokenType::Comma) {
                self.advance();
            } else if let Some(property) = self.consume(
                TokenType::Identifier,
                "Expected property identifier. Missing ';' after declaration?",
            ) {
                self.consume(TokenType::Equal, "Expected '=' after property name.");
                let pv: Vec<char> = chars_of(property.as_str());
                if let Some(role) = FTExpressionRole::from_chars(&pv) {
                    // an expression property: collect its text up to the
                    // next separator and compile it
                    let mut expr_str = String::new();
                    while !(self.check(TokenType::Semicolon) || self.check(TokenType::Comma)
                        || self.check(TokenType::Eof))
                        invariant
                            self.wf(),
                            steady(*old(self), *self),
                            self.scanner.pos >= it_pos,
                            self.scanner.pos > it_pos || self.parser.current.kind
                                == TokenType::Eof,
                        decreases
                                self.scanner.chars@.len() - self.scanner.pos,
                                (if self.parser.current.kind == TokenType::Eof {
                                    0int
                                } else {
                                    1int
                                }),
                    {
                        let lex: String = self.parser.current.lexeme.clone();
                        expr_str.append(lex.as_str());
                        self.advance();
                    }
                    node.expressions.add(role, expr_str.as_str());
                } else if self.check(TokenType::Number) {
                    let lex: String = self.parser.current.lexeme.clone();
                    if let Some(number) = Self::parse_lexeme_fixed(&lex) {
                        let mut value: Vec<i64> = Vec::new();
                        value.push(number);
                        if !node.values.add_string_based(property.as_str(), value) {
                            let msg = Self::join3("Unknown property ", property.as_str(), "");
                            self.error_at_current(msg.as_str());
                        }
                    }
                    self.advance();
                } else if self.check(TokenType::Identifier) || self.check(TokenType::LeftBracket)
                    || self.check(TokenType::HexColor) || self.check(TokenType::String) {
                    let mut has_bracket = false;
                    if self.check(TokenType::LeftBracket) {
                        has_bracket = true;
                        self.advance();
                    }
                    let map_value: String = self.parser.current.lexeme.clone();
                    let mv: Vec<char> = chars_of(map_value.as_str());
                    if chars_match_str(&pv, "material") {
                        self.advance();
                        if chars_match_str_ci(&mv, "none") {
                            proof {
                                assert(self.scanner.pos >= it_pos);
                                assert(self.scanner.pos > it_pos || self.parser.current.kind
                                    == TokenType::Eof);
                            }
                            continue ;
                        } else if let Some(value) = ctx.variable_lookup(&map_value) {
                            node.material = Some(#[verifier::truncate] (value as u8));
                        } else {
                            let msg = Self::join3("Unknown variable ('", map_value.as_str(), "').");
                            self.error_at_current(msg.as_str());
                        }
                    } else if chars_match_str(&pv, "texture") {
                        self.advance();
                        if chars_match_str_ci(&mv, "none") {
                            proof {
                                assert(self.scanner.pos >= it_pos);
                                assert(self.scanner.pos > it_pos || self.parser.current.kind
                                    == TokenType::Eof);
                            }
                            continue ;
                        } else {
                            let mut stripped: Vec<char> = Vec::new();
                            let mut k: usize = 0;
                            while k < mv.len()
                                invariant
                                    k <= mv@.len(),
                                decreases mv@.len() - k,
                            {
                                if mv[k] != '"' {
                                    stripped.push(mv[k]);
                                }
                                k += 1;
                            }
                            let mut texture_list: Vec<String> = Vec::new();
                            texture_list.push(string_of(&stripped));
                            node.map.push((Self::join3("texture", "", ""), texture_list));
                        }
                    } else if chars_match_str(&pv, "color") {
                        if self.check(TokenType::HexColor) {
                            // drop the leading '#'
                            let mut hexchars: Vec<char> = Vec::new();
                            let mut k: usize = 1;
                            while k < mv.len()
                                invariant
                                    1 <= k <= mv@.len() || mv@.len() == 0,
                                decreases mv@.len() - k,
                            {
                                hexchars.push(mv[k]);
                                k += 1;
                            }
                            if let Some(color) = Self::hex_chars_to_rgb_normalized(&hexchars) {
                                node.values.add(FTValueRole::Color, color);
                            } else {
                                let msg = Self::join3(
                                    "Invalid hex color ",
                                    map_value.as_str(),
                                    "",
                                );
                                self.error_at_current(msg.as_str());
                            }
                        }
                        self.advance();
                    } else if chars_match_str(&pv, "content") || chars_match_str(&pv, "cutout") {
                        if !has_bracket {
                            self.error_at_current("Expected '[' at beginning of content list.");
                            return ;
                        }
                        self.advance();
                        if node.role == NodeRole::Meta {
                            // meta nodes list plain ids, not node names
                            if let Some(first_fixed) = Self::parse_lexeme_fixed(&map_value) {
                                let units: i64 = fp_units(first_fixed);
                                if units >= i32::MIN as i64 && units <= i32::MAX as i64 {
                                    let links = self.read_number_list_as_i32_list(units as i32);
                                    node.links = links;
                                    if node.sub_role == NodeSubRole::MetaDelete {
                                        let ghost md0 = ctx.meta_delete@;
                                        let mut k: usize = 0;
                                        while k < node.links.len()
                                            invariant
                                                k <= node.links@.len(),
                                                md0.is_prefix_of(ctx.meta_delete@),
                                                ctx.nodes == old(ctx).nodes,
                                                ctx.variables == old(ctx).variables,
                                                ctx.shapes == old(ctx).shapes,
                                                ctx.patterns == old(ctx).patterns,
                                                ctx.faces == old(ctx).faces,
                                                ctx.materials == old(ctx).materials,
                                                ctx.output == old(ctx).output,
                                            decreases node.links@.len() - k,
                                        {
                                            proof {
                                                assert(ctx.meta_delete@.push(
                                                    node.links@[k as int],
                                                ).subrange(0, md0.len() as int) =~= ctx
                                                    .meta_delete@.subrange(0, md0.len() as int));
                                            }
                                            ctx.meta_delete.push(node.links[k]);
                                            k += 1;
                                        }
                                        // the ids move to the global list
                                        node.links = Vec::new();
                                    }
                                }
                            }
                        } else if !chars_match_str(&mv, "]") {
                            if chars_match_str(&pv, "cutout") {
                                let cutout = self.read_string_list_as_ref_list(map_value, ctx);
                                if cutout.len() > 0 {
                                    let idx: i32 = cutout[0];
                                    let mut value: Vec<i64> = Vec::new();
                                    value.push((idx as i64) * FP_SCALE);
                                    node.values.add(FTValueRole::Cutout, value);
                                }
                            } else {
                                let links = self.read_string_list_as_ref_list(map_value, ctx);
                                node.links = links;
                            }
                        }
                    } else {
                        let mut value_list: Vec<String> = Vec::new();
                        value_list.push(map_value);
                        node.map.push((property, value_list));
                        self.advance();
                    }
                } else {
                    let msg = self.message_with_lexeme("Unknown property value, got '", "'.");
                    self.error_at_current(msg.as_str());
                    break ;
                }
            } else {
                break ;
            }
            proof {
                assert(self.scanner.pos >= it_pos);
                assert(self.scanner.pos > it_pos || self.parser.current.kind == TokenType::Eof);
            }
        }
    }

    /// Read a comma separated list of integers as an id list: after the
    /// given first element, every entry is the whole-unit value of a
    /// decimal literal read from the stream, in reading order.
    pub fn read_number_list_as_i32_list(&mut self, first: i32) -> (list: Vec<i32>)
        requires
            old(self).wf(),
        ensures
            steady(*old(self), *final(self)),
            old(self).parser.current.kind == TokenType::Eof ==> final(self).parser.current.kind
                == TokenType::Eof && final(self).scanner.pos == old(self).scanner.pos,
            list@.len() >= 1,
            list@[0] == first,
            exists|lexs: Seq<Seq<char>>| #[trigger] lexs.len() + 1 == list@.len() && (forall|
                i: int,
            |
                0 <= i < lexs.len() ==> crate::text::spec_is_decimal(#[trigger] lexs[i])
                    && i32::MIN <= spec_literal_id(lexs[i]) <= i32::MAX && list@[i + 1]
                    == spec_literal_id(lexs[i])),
    {
        let mut list: Vec<i32> = Vec::new();
        list.push(first);
        let ghost mut lexs: Seq<Seq<char>> = Seq::empty();
        while !self.check(TokenType::Eof)
            invariant
                self.wf(),
                steady(*old(self), *self),
                old(self).parser.current.kind == TokenType::Eof ==> self.parser.current.kind
                    == TokenType::Eof && self.scanner.pos == old(self).scanner.pos,
                list@.len() >= 1,
                list@[0] == first,
                lexs.len() + 1 == list@.len(),
                forall|i: int|
                    0 <= i < lexs.len() ==> crate::text::spec_is_decimal(#[trigger] lexs[i])
                        && i32::MIN <= spec_literal_id(lexs[i]) <= i32::MAX && list@[i + 1]
                        == spec_literal_id(lexs[i]),
            decreases
                    self.scanner.chars@.len() - self.scanner.pos,
                    (if self.parser.current.kind == TokenType::Eof {
                        0int
                    } else {
                        1int
                    }),
        {
            if self.check(TokenType::Comma) {
                self.advance();
            } else if self.check(TokenType::Number) {
                let lex: String = self.parser.current.lexeme.clone();
                if let Some(v) = Self::parse_lexeme_fixed(&lex) {
                    let units: i64 = fp_units(v);
                    if units >= i32::MIN as i64 && units <= i32::MAX as i64 {
                        list.push(units as i32);
                        proof {
                            lexs = lexs.push(lex@);
                        }
                    }
                }
                self.advance();
            } else if self.check(TokenType::RightBracket) {
                self.advance();
                break ;
            } else {
                let msg = self.message_with_lexeme("Expected ']' at end of list, got '", "'.");
                self.error_at_current(msg.as_str());
                break ;
            }
        }
        list
    }

    /// Read a comma separated list of names and resolve each to the node
    /// index it is bound to.
    pub fn read_string_list_as_ref_list(&mut self, first: String, ctx: &FTContext) -> (values: Vec<
        i32,
    >)
        requires
            old(self).wf(),
        ensures
            steady(*old(self), *final(self)),
            old(self).parser.current.kind == TokenType::Eof ==> final(self).parser.current.kind
                == TokenType::Eof && final(self).scanner.pos == old(self).scanner.pos,
    {
        let mut list: Vec<String> = Vec::new();
        list.push(first);
        while !self.check(TokenType::Eof)
            invariant
                self.wf(),
                steady(*old(self), *self),
                old(self).parser.current.kind == TokenType::Eof ==> self.parser.current.kind
                    == TokenType::Eof && self.scanner.pos == old(self).scanner.pos,
            decreases
                    self.scanner.chars@.len() - self.scanner.pos,
                    (if self.parser.current.kind == TokenType::Eof {
                        0int
                    } else {
                        1int
                    }),
        {
            if self.check(TokenType::Comma) {
                self.advance();
            } else if self.check(TokenType::Identifier) {
                list.push(self.parser.current.lexeme.clone());
                self.advance();
            } else if self.check(TokenType::RightBracket) {
                self.advance();
                break ;
            } else {
                let msg = self.message_with_lexeme("Expected ']' at end of list, got '", "'.");
                self.error_at_current(msg.as_str());
                break ;
            }
        }
        let mut values: Vec<i32> = Vec::new();
        let mut i: usize = 0;
        while i < list.len()
            invariant
                self.wf(),
                steady(*old(self), *self),
                old(self).parser.current.kind == TokenType::Eof ==> self.parser.current.kind
                    == TokenType::Eof && self.scanner.pos == old(self).scanner.pos,
                i <= list@.len(),
            decreases list@.len() - i,
        {
            if let Some(value) = ctx.variable_lookup(&list[i]) {
                if value <= i32::MAX as usize {
                    values.push(value as i32);
                } else {
                    values.push(i32::MAX);
                }
            } else {
                let msg = self.message_with_lexeme("Unknown variable ('", "').");
                self.error_at_current(msg.as_str());
            }
            i += 1;
        }
        values
    }

    /// The normalized fixed-point red, green and blue of six hex digits.
    pub fn hex_chars_to_rgb_normalized(hex: &Vec<char>) -> (r: Option<Vec<i64>>)
        ensures
            (r is Some) == (hex@.len() == 6 && (forall|i: int|
                0 <= i < 6 ==> spec_hex_digit_val(hex@[i]) >= 0)),
            r is Some ==> {
                let v = r->Some_0;
                v@.len() == 3 && (forall|c: int|
                    0 <= c < 3 ==> v@[c] == (spec_hex_digit_val(hex@[2 * c]) * 16
                        + spec_hex_digit_val(hex@[2 * c + 1])) * FP_SCALE as int / 255)
            },
    {
        if hex.len() != 6 {
            return None;
        }
        let mut out: Vec<i64> = Vec::new();
        let mut c: usize = 0;
        while c < 3
            invariant
                c <= 3,
                hex@.len() == 6,
                out@.len() == c,
                forall|i: int| 0 <= i < 2 * c ==> spec_hex_digit_val(hex@[i]) >= 0,
                forall|k: int|
                    0 <= k < c ==> out@[k] == (spec_hex_digit_val(hex@[2 * k]) * 16
                        + spec_hex_digit_val(hex@[2 * k + 1])) * FP_SCALE as int / 255,
            decreases 3 - c,
        {
            let hi: i32 = hex_digit_val(hex[2 * c]);
            let lo: i32 = hex_digit_val(hex[2 * c + 1]);
            if hi < 0 || lo < 0 {
                return None;
            }
            let byte: i64 = (hi as i64) * 16 + (lo as i64);
            out.push(byte * FP_SCALE / 255);
            c += 1;
        }
        Some(out)
    }

    /// The fixed-point value of a whole numeric lexeme: exactly the
    /// decimal literals `digits[.digits]` parse, everything else does not.
    pub fn parse_lexeme_fixed(lex: &String) -> (r: Option<i64>)
        ensures
            (r is Some) == crate::text::spec_is_decimal(lex@),
            r is Some ==> r->Some_0 == spec_decimal_value(lex@),
    {
        let v: Vec<char> = chars_of(lex.as_str());
        match crate::text::parse_decimal_prefix(&v, 0) {
            Some((val, end)) => {
                if end == v.len() {
                    proof {
                        assert(v@.subrange(0, end as int) =~= lex@);
                    }
                    Some(val)
                } else {
                    None
                }
            },
            None => None,
        }
    }

    /// Advance one token
    fn advance(&mut self)
        requires
            old(self).wf(),
        ensures
            steady(*old(self), *final(self)),
            cursor_synced(*final(self)),
            final(self).parser.error == old(self).parser.error,
            final(self).scanner.pos > old(self).scanner.pos || final(self).parser.current.kind
                == TokenType::Eof,
            old(self).scanner.pos == old(self).scanner.chars@.len()
                ==> final(self).parser.current.kind == TokenType::Eof,
            final(self).parser.current.kind != TokenType::Error,
    {
        self.parser.previous = self.parser.current.clone();
        self.parser.current = self.scanner.scan_token(false);
        while self.parser.current.kind == TokenType::Error
            invariant
                self.wf(),
                self.scanner.chars@ == old(self).scanner.chars@,
                self.parser.error == old(self).parser.error,
                self.scanner.pos >= old(self).scanner.pos,
                self.scanner.pos > old(self).scanner.pos || self.parser.current.kind
                    == TokenType::Eof,
                cursor_synced(*self),
                old(self).scanner.pos == old(self).scanner.chars@.len()
                    ==> self.parser.current.kind == TokenType::Eof,
            decreases
                    self.scanner.chars@.len() - self.scanner.pos,
                    (if self.parser.current.kind == TokenType::Error {
                        1int
                    } else {
                        0int
                    }),
        {
            self.parser.current = self.scanner.scan_token(false);
        }
    }

    /// Advance one token and allow whitespace
    fn _advance_with_whitespace(&mut self)
        requires
            old(self).wf(),
        ensures
            steady(*old(self), *final(self)),
            cursor_synced(*final(self)),
            final(self).parser.error == old(self).parser.error,
    {
        self.parser.previous = self.parser.current.clone();
        self.parser.current = self.scanner.scan_token(true);
        while self.parser.current.kind == TokenType::Error
            invariant
                self.wf(),
                self.scanner.chars@ == old(self).scanner.chars@,
                self.parser.error == old(self).parser.error,
                self.scanner.pos >= old(self).scanner.pos,
                self.scanner.pos > old(self).scanner.pos || self.parser.current.kind
                    == TokenType::Eof,
                cursor_synced(*self),
            decreases
                    self.scanner.chars@.len() - self.scanner.pos,
                    (if self.parser.current.kind == TokenType::Error {
                        1int
                    } else {
                        0int
                    }),
        {
            self.parser.current = self.scanner.scan_token(true);
        }
    }

    /// Return a reference to the current token.
    fn current(&self) -> (r: &Token)
        ensures
            *r == self.parser.current,
    {
        &self.parser.current
    }

    /// Consume the current token if the type matches and return its lexeme.
    fn consume(&mut self, kind: TokenType, message: &str) -> (r: Option<String>)
        requires
            old(self).wf(),
        ensures
            steady(*old(self), *final(self)),
            (r is Some) == (old(self).parser.current.kind == kind),
            progressed(*old(self), *final(self)),
            r is Some ==> r->Some_0@ == old(self).parser.current.lexeme@
                && final(self).parser.error == old(self).parser.error,
            r is Some ==> final(self).scanner.pos > old(self).scanner.pos
                || final(self).parser.current.kind == TokenType::Eof,
            r is None ==> final(self).parser.error is Some
                && final(self).scanner == old(self).scanner
                && final(self).parser.current == old(self).parser.current,
    {
        if self.parser.current.kind == kind {
            let lex: String = self.parser.current.lexeme.clone();
            self.advance();
            Some(lex)
        } else {
            self.error_at_current(message);
            None
        }
    }

    /// Consume the current token if the type matches, allowing whitespace.
    fn _consume_with_whitespace(&mut self, kind: TokenType, message: &str)
        requires
            old(self).wf(),
        ensures
            steady(*old(self), *final(self)),
            old(self).parser.current.kind != kind ==> final(self).parser.error is Some,
    {
        if self.parser.current.kind == kind {
            self._advance_with_whitespace();
            return ;
        }
        self.error_at_current(message);
    }

    /// If the current token matches advance, else do not.
    fn matches(&mut self, kind: TokenType) -> (r: bool)
        requires
            old(self).wf(),
        ensures
            steady(*old(self), *final(self)),
            r == (old(self).parser.current.kind == kind),
            final(self).parser.error == old(self).parser.error,
            !r ==> *final(self) == *old(self),
            r ==> final(self).scanner.pos > old(self).scanner.pos
                || final(self).parser.current.kind == TokenType::Eof,
            r && kind == TokenType::Eof && cursor_synced(*old(self))
                ==> final(self).parser.current.kind == TokenType::Eof && final(self).scanner.pos
                == final(self).scanner.chars@.len(),
    {
        if !self.check(kind) {
            false
        } else {
            self.advance();
            true
        }
    }

    /// Check if the current token matches.
    fn check(&self, kind: TokenType) -> (r: bool)
        ensures
            r == (self.parser.current.kind == kind),
    {
        self.parser.current.kind == kind
    }

    /// The indent level of the current token.
    fn _indent(&self) -> (r: usize)
        ensures
            r == self.parser.current.indent,
    {
        self.parser.current.indent
    }

    /// Error at the current token
    fn error_at_current(&mut self, message: &str)
        ensures
            final(self).scanner == old(self).scanner,
            final(self).parser.current == old(self).parser.current,
            final(self).parser.error is Some,
            old(self).parser.error is Some ==> final(self).parser.error == old(self).parser.error,
            old(self).parser.error is None ==> (final(self).parser.error matches Some(e)
                && e.description@ == message@ && e.line == old(self).parser.current.line),
    {
        let token: Token = self.parser.current.clone();
        self.error_at(token, message)
    }

    /// Error at the previous token
    fn _error(&mut self, message: &str)
        ensures
            final(self).scanner == old(self).scanner,
            final(self).parser.current == old(self).parser.current,
            final(self).parser.error is Some,
            old(self).parser.error is Some ==> final(self).parser.error == old(self).parser.error,
    {
        let token: Token = self.parser.previous.clone();
        self.error_at(token, message)
    }

    /// Returns true if we had an error during parsing.
    fn has_error(&self) -> (r: bool)
        ensures
            r == (self.parser.error is Some),
    {
        self.parser.error.is_some()
    }

    /// Error at the given token; only the first error is kept.
    fn error_at(&mut self, _token: Token, message: &str)
        ensures
            final(self).scanner == old(self).scanner,
            final(self).parser.current == old(self).parser.current,
            final(self).parser.error is Some,
            old(self).parser.error is Some ==> final(self).parser.error == old(self).parser.error,
            old(self).parser.error is None ==> (final(self).parser.error matches Some(e)
                && e.description@ == message@ && e.line == old(self).parser.current.line),
    {
        if self.parser.error.is_some() {
            return ;
        }
        self.parser.error = Some(
            FTError::new(String::from_str(message), self.parser.current.line),
        );
    }

    /// A message with the current token's lexeme spliced in.
    fn message_with_lexeme(&self, prefix: &str, suffix: &str) -> (r: String)
        ensures
            r@ == prefix@ + self.parser.current.lexeme@ + suffix@,
    {
        let mut s = String::from_str(prefix);
        s.append(self.parser.current.lexeme.as_str());
        s.append(suffix);
        s
    }

    /// Three string slices joined into one owned string.
    fn join3(a: &str, b: &str, c: &str) -> (r: String)
        ensures
            r@ == a@ + b@ + c@,
    {
        let mut s = String::from_str(a);
        s.append(b);
        s.append(c);
        s
    }
}

} // verus!
