//! Format-string parsing and arity checking.
//!
//! A format template is split into pieces: literal runs and `{}`
//! placeholders.  `{{` and `}}` escape literal braces; any other lone
//! brace is an error.  The number of placeholders is validated against
//! the number of supplied values before anything is rendered, and
//! [`render`] interleaves the literal runs with the rendered values.
//!
//! Templates are byte strings, as the stored literal form is.

use vstd::prelude::*;

use crate::nano_fmt::NanoWrite;
use crate::nano_fmt::fmt_decimal;
use crate::nano_fmt::spec_decimal;

verus! {

/// The byte `{`.
pub const LBRACE: u8 = 123;

/// The byte `}`.
pub const RBRACE: u8 = 125;

/// Rejected format templates and mismatched argument counts.
#[derive(Clone, Copy, Debug, PartialEq, Eq, Structural)]
pub enum FormatError {
    /// A `}` with no matching escape.
    UnmatchedBrace,
    /// A `{` followed by neither `{` nor `}`.
    InvalidPlaceholder,
    /// The template has more placeholders than values were supplied.
    MissingArguments,
    /// A supplied value has no placeholder.
    UnusedArgument,
}

/// One piece of a parsed template.
#[derive(Debug, PartialEq, Eq)]
pub enum Piece {
    /// A `{}` placeholder.
    Display,
    /// A literal run, braces unescaped.
    Str(Vec<u8>),
}

/// Abstract value of a template piece.
#[verifier::ext_equal]
pub enum PieceView {
    /// A `{}` placeholder.
    Display,
    /// A literal run, braces unescaped.
    Str(Seq<u8>),
}

impl View for Piece {
    type V = PieceView;

    open spec fn view(&self) -> PieceView {
        match self {
            Piece::Display => PieceView::Display,
            Piece::Str(t) => PieceView::Str(t@),
        }
    }
}

impl Piece {
    /// Whether this piece is a literal run.
    pub fn is_str(&self) -> (r: bool)
        ensures
            r == (self@ is Str),
    {
        match self {
            Piece::Str(_) => true,
            Piece::Display => false,
        }
    }
}

/// The pieces of a parsed piece list, abstractly.
pub open spec fn pieces_view(ps: Seq<Piece>) -> Seq<PieceView> {
    ps.map_values(|p: Piece| p@)
}

/// The literal bytes of a piece (none for a placeholder).
pub open spec fn lit_of(p: PieceView) -> Seq<u8> {
    match p {
        PieceView::Str(t) => t,
        PieceView::Display => seq![],
    }
}

/// Prepend a literal byte to a piece list, merging it into a literal run
/// already at the front so adjacent literal text stays one piece.
pub open spec fn spec_cons_lit(c: u8, ps: Seq<PieceView>) -> Seq<PieceView> {
    if ps.len() > 0 && (ps[0] is Str) {
        seq![PieceView::Str(seq![c] + lit_of(ps[0]))] + ps.skip(1)
    } else {
        seq![PieceView::Str(seq![c])] + ps
    }
}

/// The parse of a template: its piece list, or the leftmost brace error.
/// `{}` yields a placeholder; `{{` and `}}` yield literal braces; any
/// other brace use is rejected.  Literal runs between placeholders are
/// maximal and never empty.
pub open spec fn spec_parse(s: Seq<u8>) -> Result<Seq<PieceView>, FormatError>
    decreases s.len(),
{
    if s.len() == 0 {
        Ok(seq![])
    } else if s[0] == LBRACE {
        if s.len() >= 2 && s[1] == RBRACE {
            match spec_parse(s.skip(2)) {
                Ok(ps) => Ok(seq![PieceView::Display] + ps),
                Err(e) => Err(e),
            }
        } else if s.len() >= 2 && s[1] == LBRACE {
            match spec_parse(s.skip(2)) {
                Ok(ps) => Ok(spec_cons_lit(LBRACE, ps)),
                Err(e) => Err(e),
            }
        } else {
            Err(FormatError::InvalidPlaceholder)
        }
    } else if s[0] == RBRACE {
        if s.len() >= 2 && s[1] == RBRACE {
            match spec_parse(s.skip(2)) {
                Ok(ps) => Ok(spec_cons_lit(RBRACE, ps)),
                Err(e) => Err(e),
            }
        } else {
            Err(FormatError::UnmatchedBrace)
        }
    } else {
        match spec_parse(s.skip(1)) {
            Ok(ps) => Ok(spec_cons_lit(s[0], ps)),
            Err(e) => Err(e),
        }
    }
}

/// The unescape of a literal run: `}}` becomes `}`, and a lone `}` is
/// rejected.
pub open spec fn spec_unescape(s: Seq<u8>) -> Result<Seq<u8>, FormatError>
    decreases s.len(),
{
    if s.len() == 0 {
        Ok(seq![])
    } else if s[0] == RBRACE {
        if s.len() >= 2 && s[1] == RBRACE {
            match spec_unescape(s.skip(2)) {
                Ok(t) => Ok(seq![RBRACE] + t),
                Err(e) => Err(e),
            }
        } else {
            Err(FormatError::UnmatchedBrace)
        }
    } else {
        match spec_unescape(s.skip(1)) {
            Ok(t) => Ok(seq![s[0]] + t),
            Err(e) => Err(e),
        }
    }
}

/// Prepend a literal byte to a parsed piece list.
fn cons_lit(c: u8, ps: Vec<Piece>) -> (r: Vec<Piece>)
    ensures
        pieces_view(r@) == spec_cons_lit(c, pieces_view(ps@)),
{
    let mut ps = ps;
    let ghost orig = ps@;
    if ps.len() > 0 {
        let first = ps.remove(0);
        match first {
            Piece::Str(t) => {
                let mut merged = t;
                merged.insert(0, c);
                ps.insert(0, Piece::Str(merged));
            },
            Piece::Display => {
                ps.insert(0, Piece::Display);
                ps.insert(0, Piece::Str(vec![c]));
            },
        }
    } else {
        ps.insert(0, Piece::Str(vec![c]));
    }
    proof {
        assert(pieces_view(ps@) =~~= spec_cons_lit(c, pieces_view(orig)));
    }
    ps
}

/// Parse the template from position `i` on.
fn parse_from(s: &Vec<u8>, i: usize) -> (r: Result<Vec<Piece>, FormatError>)
    requires
        i <= s@.len(),
    ensures
        match r {
            Ok(ps) => spec_parse(s@.skip(i as int)) == Ok::<Seq<PieceView>, FormatError>(
                pieces_view(ps@),
            ),
            Err(e) => spec_parse(s@.skip(i as int)) == Err::<Seq<PieceView>, FormatError>(e),
        },
    decreases s@.len() - i,
{
    proof {
        assert(s@.skip(i as int).len() == s@.len() - i);
    }
    if i == s.len() {
        let ps: Vec<Piece> = Vec::new();
        proof {
            assert(pieces_view(ps@) =~= Seq::<PieceView>::empty());
        }
        return Ok(ps);
    }
    let c = s[i];
    proof {
        assert(s@.skip(i as int)[0] == s@[i as int]);
        if i + 1 < s@.len() {
            assert(s@.skip(i as int)[1] == s@[i as int + 1]);
        }
        assert(s@.skip(i as int).skip(1) =~= s@.skip(i as int + 1));
        if i + 2 <= s@.len() {
            assert(s@.skip(i as int).skip(2) =~= s@.skip(i as int + 2));
        }
    }
    if c == LBRACE {
        if i + 1 < s.len() && s[i + 1] == RBRACE {
            match parse_from(s, i + 2) {
                Ok(ps) => {
                    let mut ps = ps;
                    let ghost tail = ps@;
                    ps.insert(0, Piece::Display);
                    proof {
                        assert(pieces_view(ps@) =~= seq![PieceView::Display] + pieces_view(tail));
                    }
                    Ok(ps)
                },
                Err(e) => Err(e),
            }
        } else if i + 1 < s.len() && s[i + 1] == LBRACE {
            match parse_from(s, i + 2) {
                Ok(ps) => Ok(cons_lit(LBRACE, ps)),
                Err(e) => Err(e),
            }
        } else {
            Err(FormatError::InvalidPlaceholder)
        }
    } else if c == RBRACE {
        if i + 1 < s.len() && s[i + 1] == RBRACE {
            match parse_from(s, i + 2) {
                Ok(ps) => Ok(cons_lit(RBRACE, ps)),
                Err(e) => Err(e),
            }
        } else {
            Err(FormatError::UnmatchedBrace)
        }
    } else {
        match parse_from(s, i + 1) {
            Ok(ps) => Ok(cons_lit(c, ps)),
            Err(e) => Err(e),
        }
    }
}

/// Split a template into literal and placeholder pieces, or reject it at
/// its leftmost brace error.
pub fn parse(fmt: &Vec<u8>) -> (r: Result<Vec<Piece>, FormatError>)
    ensures
        match r {
            Ok(ps) => spec_parse(fmt@) == Ok::<Seq<PieceView>, FormatError>(pieces_view(ps@)),
            Err(e) => spec_parse(fmt@) == Err::<Seq<PieceView>, FormatError>(e),
        },
{
    proof {
        assert(fmt@.skip(0) =~= fmt@);
    }
    parse_from(fmt, 0)
}

/// Unescape a literal run from position `i` on.
fn unescape_from(s: &Vec<u8>, i: usize) -> (r: Result<Vec<u8>, FormatError>)
    requires
        i <= s@.len(),
    ensures
        match r {
            Ok(t) => spec_unescape(s@.skip(i as int)) == Ok::<Seq<u8>, FormatError>(t@),
            Err(e) => spec_unescape(s@.skip(i as int)) == Err::<Seq<u8>, FormatError>(e),
        },
    decreases s@.len() - i,
{
    proof {
        assert(s@.skip(i as int).len() == s@.len() - i);
    }
    if i == s.len() {
        let t: Vec<u8> = Vec::new();
        proof {
            assert(t@ =~= Seq::<u8>::empty());
        }
        return Ok(t);
    }
    let c = s[i];
    proof {
        assert(s@.skip(i as int)[0] == s@[i as int]);
        if i + 1 < s@.len() {
            assert(s@.skip(i as int)[1] == s@[i as int + 1]);
        }
        assert(s@.skip(i as int).skip(1) =~= s@.skip(i as int + 1));
        if i + 2 <= s@.len() {
            assert(s@.skip(i as int).skip(2) =~= s@.skip(i as int + 2));
        }
    }
    if c == RBRACE {
        if i + 1 < s.len() && s[i + 1] == RBRACE {
            match unescape_from(s, i + 2) {
                Ok(t) => {
                    let mut t = t;
                    let ghost tail = t@;
                    t.insert(0, RBRACE);
                    proof {
                        assert(t@ =~= seq![RBRACE] + tail);
                    }
                    Ok(t)
                },
                Err(e) => Err(e),
            }
        } else {
            Err(FormatError::UnmatchedBrace)
        }
    } else {
        match unescape_from(s, i + 1) {
            Ok(t) => {
                let mut t = t;
                let ghost tail = t@;
                t.insert(0, c);
                proof {
                    assert(t@ =~= seq![c] + tail);
                }
                Ok(t)
            },
            Err(e) => Err(e),
        }
    }
}

/// Turn each `}}` of a literal run into `}`, rejecting a lone `}`.
pub fn unescape(fmt: &Vec<u8>) -> (r: Result<Vec<u8>, FormatError>)
    ensures
        match r {
            Ok(t) => spec_unescape(fmt@) == Ok::<Seq<u8>, FormatError>(t@),
            Err(e) => spec_unescape(fmt@) == Err::<Seq<u8>, FormatError>(e),
        },
{
    proof {
        assert(fmt@.skip(0) =~= fmt@);
    }
    unescape_from(fmt, 0)
}

/// How many values a piece list needs: one per placeholder.
pub open spec fn spec_required_args(ps: Seq<PieceView>) -> nat
    decreases ps.len(),
{
    if ps.len() == 0 {
        0
    } else {
        (if ps[0] is Str {
            0nat
        } else {
            1nat
        }) + spec_required_args(ps.skip(1))
    }
}

/// A piece list never needs more values than it has pieces.
pub proof fn lemma_required_args_le_len(ps: Seq<PieceView>)
    ensures
        spec_required_args(ps) <= ps.len(),
    decreases ps.len(),
{
    if ps.len() > 0 {
        lemma_required_args_le_len(ps.skip(1));
    }
}

/// Count the placeholders of a parsed template.
pub fn required_args(pieces: &Vec<Piece>) -> (n: usize)
    ensures
        n == spec_required_args(pieces_view(pieces@)),
{
    let ghost whole = pieces_view(pieces@);
    proof {
        assert(whole.skip(0) =~= whole);
    }
    let mut n: usize = 0;
    let mut i: usize = 0;
    while i < pieces.len()
        invariant
            i <= pieces@.len(),
            whole == pieces_view(pieces@),
            whole.len() == pieces@.len(),
            n + spec_required_args(whole.skip(i as int)) == spec_required_args(whole),
            n <= i,
        decreases pieces@.len() - i,
    {
        proof {
            assert(whole.skip(i as int)[0] == whole[i as int]);
            assert(whole.skip(i as int).skip(1) =~= whole.skip(i as int + 1));
            lemma_required_args_le_len(whole.skip(i as int + 1));
        }
        if !pieces[i].is_str() {
            n = n + 1;
        }
        i = i + 1;
    }
    proof {
        assert(whole.skip(i as int) =~= Seq::<PieceView>::empty());
        lemma_required_args_le_len(whole);
    }
    n
}

/// Check the supplied value count against the template: too few values
/// is an error at the template, a value beyond the placeholders is an
/// error at that value.
pub fn check_args(pieces: &Vec<Piece>, supplied: usize) -> (r: Result<(), FormatError>)
    ensures
        r == if supplied < spec_required_args(pieces_view(pieces@)) {
            Err::<(), FormatError>(FormatError::MissingArguments)
        } else if supplied > spec_required_args(pieces_view(pieces@)) {
            Err::<(), FormatError>(FormatError::UnusedArgument)
        } else {
            Ok::<(), FormatError>(())
        },
{
    let required = required_args(pieces);
    if supplied < required {
        Err(FormatError::MissingArguments)
    } else if supplied > required {
        Err(FormatError::UnusedArgument)
    } else {
        Ok(())
    }
}

/// The bytes of a rendered template: literal runs as they stand, each
/// placeholder replaced by the decimal rendering of its value.
pub open spec fn spec_render(ps: Seq<PieceView>, args: Seq<u32>) -> Seq<u8>
    decreases ps.len(),
{
    if ps.len() == 0 {
        seq![]
    } else {
        match ps[0] {
            PieceView::Str(t) => t + spec_render(ps.skip(1), args),
            PieceView::Display => spec_decimal(args[0] as nat) + spec_render(
                ps.skip(1),
                args.skip(1),
            ),
        }
    }
}

/// Render a parsed template with its values into a sink: each literal
/// run verbatim, each placeholder as the decimal of the next value.
pub fn render<F: NanoWrite>(f: &mut F, pieces: &Vec<Piece>, args: &Vec<u32>)
    requires
        args@.len() == spec_required_args(pieces_view(pieces@)),
    ensures
        final(f).written() == old(f).written() + spec_render(pieces_view(pieces@), args@),
{
    let ghost whole = pieces_view(pieces@);
    proof {
        assert(whole.skip(0) =~= whole);
        assert(args@.skip(0) =~= args@);
    }
    let mut i: usize = 0;
    let mut j: usize = 0;
    while i < pieces.len()
        invariant
            i <= pieces@.len(),
            j <= args@.len(),
            whole == pieces_view(pieces@),
            whole.len() == pieces@.len(),
            j + spec_required_args(whole.skip(i as int)) == args@.len(),
            old(f).written() + spec_render(whole, args@) == f.written() + spec_render(
                whole.skip(i as int),
                args@.skip(j as int),
            ),
        decreases pieces@.len() - i,
    {
        proof {
            assert(whole.skip(i as int)[0] == whole[i as int]);
            assert(whole.skip(i as int).skip(1) =~= whole.skip(i as int + 1));
            lemma_required_args_le_len(whole.skip(i as int + 1));
        }
        match &pieces[i] {
            Piece::Str(t) => {
                let ghost w0 = f.written();
                let mut k: usize = 0;
                while k < t.len()
                    invariant
                        k <= t@.len(),
                        f.written() == w0 + t@.subrange(0, k as int),
                    decreases t@.len() - k,
                {
                    f.write_byte(t[k]);
                    proof {
                        assert(w0 + t@.subrange(0, k as int) + seq![t@[k as int]] =~= w0
                            + t@.subrange(0, k + 1));
                    }
                    k = k + 1;
                }
                proof {
                    assert(t@.subrange(0, t@.len() as int) =~= t@);
                    assert(f.written() =~= w0 + t@);
                }
            },
            Piece::Display => {
                proof {
                    vstd::std_specs::vec::axiom_spec_len(args);
                    assert(spec_required_args(whole.skip(i as int)) >= 1);
                    assert(args@.skip(j as int)[0] == args@[j as int]);
                    assert(args@.skip(j as int).skip(1) =~= args@.skip(j as int + 1));
                }
                fmt_decimal(args[j] as u128, f);
                j = j + 1;
            },
        }
        i = i + 1;
    }
    proof {
        assert(whole.skip(i as int) =~= Seq::<PieceView>::empty());
        assert(args@.skip(j as int) =~= Seq::<u32>::empty());
        assert(final(f).written() =~= old(f).written() + spec_render(whole, args@));
    }
}

} // verus!
