//! Texts that follow a template: fixed pieces, and holes that are filled in.

use vstd::prelude::*;

verus! {

/// A piece of a template.
pub enum Piece {
    /// The same text in every filling.
    Fixed(Seq<char>),
    /// The filling of that number.
    Hole(int),
}

/// Fixed pieces and holes, in order.
pub struct Template {
    pub pieces: Seq<Piece>,
}

/// The template without pieces.
pub open spec fn template() -> Template {
    Template { pieces: Seq::empty() }
}

/// What stands for `piece` when the holes are filled with `fillings`.
pub open spec fn piece_text(piece: Piece, fillings: Seq<Seq<char>>) -> Seq<char> {
    match piece {
        Piece::Fixed(text) => text,
        Piece::Hole(i) => fillings[i],
    }
}

/// `pieces` with the holes filled.
pub open spec fn filled(pieces: Seq<Piece>, fillings: Seq<Seq<char>>) -> Seq<char>
    decreases pieces.len(),
{
    if pieces.len() == 0 {
        Seq::empty()
    } else {
        filled(pieces.drop_last(), fillings) + piece_text(pieces.last(), fillings)
    }
}

impl Template {
    /// Followed by a fixed text.
    pub open spec fn text(self, text: Seq<char>) -> Template {
        Template { pieces: self.pieces.push(Piece::Fixed(text)) }
    }

    /// Followed by the hole of that number.
    pub open spec fn hole(self, i: int) -> Template {
        Template { pieces: self.pieces.push(Piece::Hole(i)) }
    }

    /// Followed by another template.
    pub open spec fn and(self, other: Template) -> Template {
        Template { pieces: self.pieces + other.pieces }
    }

    /// The template with its holes filled.
    pub open spec fn fill(self, fillings: Seq<Seq<char>>) -> Seq<char> {
        filled(self.pieces, fillings)
    }
}

/// Whether `text` is `template` with its holes filled.
pub open spec fn is_filled(text: Seq<char>, template: Template, fillings: Seq<Seq<char>>) -> bool {
    text == template.fill(fillings)
}

/// Whether one template gives `text` of everything that passes `test`, filled with what
/// `fillings` takes from it and with nothing else.
pub open spec fn follows_template<T>(
    text: spec_fn(T) -> Seq<char>,
    fillings: spec_fn(T) -> Seq<Seq<char>>,
    test: spec_fn(T) -> bool,
) -> bool {
    exists|template: Template| gives(template, text, fillings, test)
}

/// Whether `template` gives `text` of everything that passes `test`.
pub open spec fn gives<T>(
    template: Template,
    text: spec_fn(T) -> Seq<char>,
    fillings: spec_fn(T) -> Seq<Seq<char>>,
    test: spec_fn(T) -> bool,
) -> bool {
    forall|x: T| #[trigger] test(x) ==> text(x) == template.fill(fillings(x))
}

/// A fixed text at the end.
pub broadcast proof fn lemma_fill_text(t: Template, text: Seq<char>, fillings: Seq<Seq<char>>)
    ensures
        #[trigger] t.text(text).fill(fillings) == t.fill(fillings) + text,
{
    assert(t.text(text).pieces.drop_last() =~= t.pieces);
}

/// A hole at the end.
pub broadcast proof fn lemma_fill_hole(t: Template, i: int, fillings: Seq<Seq<char>>)
    ensures
        #[trigger] t.hole(i).fill(fillings) == t.fill(fillings) + fillings[i],
{
    assert(t.hole(i).pieces.drop_last() =~= t.pieces);
}

/// A fixed text alone.
pub broadcast proof fn lemma_fill_first_text(text: Seq<char>, fillings: Seq<Seq<char>>)
    ensures
        #[trigger] template().text(text).fill(fillings) == text,
{
    lemma_fill_text(template(), text, fillings);
    assert(template().fill(fillings) + text =~= text);
}

/// A hole alone.
pub broadcast proof fn lemma_fill_first_hole(i: int, fillings: Seq<Seq<char>>)
    ensures
        #[trigger] template().hole(i).fill(fillings) == fillings[i],
{
    lemma_fill_hole(template(), i, fillings);
    assert(template().fill(fillings) + fillings[i] =~= fillings[i]);
}

/// One template after another.
pub broadcast proof fn lemma_fill_and(t: Template, u: Template, fillings: Seq<Seq<char>>)
    ensures
        #[trigger] t.and(u).fill(fillings) == t.fill(fillings) + u.fill(fillings),
{
    lemma_filled_append(t.pieces, u.pieces, fillings);
}

/// Two lists of pieces are filled one after the other.
proof fn lemma_filled_append(first: Seq<Piece>, second: Seq<Piece>, fillings: Seq<Seq<char>>)
    ensures
        filled(first + second, fillings) == filled(first, fillings) + filled(second, fillings),
    decreases second.len(),
{
    if second.len() == 0 {
        assert(first + second =~= first);
        assert(filled(first, fillings) + filled(second, fillings) =~= filled(first, fillings));
    } else {
        let shorter = second.drop_last();
        lemma_filled_append(first, shorter, fillings);
        assert((first + second).drop_last() =~= first + shorter);
        assert((first + second).last() == second.last());
        assert(filled(first + second, fillings) =~= filled(first, fillings) + filled(
            second,
            fillings,
        ));
    }
}

pub broadcast group group_templates {
    lemma_fill_text,
    lemma_fill_hole,
    lemma_fill_first_text,
    lemma_fill_first_hole,
    lemma_fill_and,
}

} // verus!
