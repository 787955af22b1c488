use vstd::prelude::*;

use crate::level::{level_name, Level};
use crate::record::Metadata;

verus! {

/// One piece of a message template.
#[derive(Debug)]
pub enum Piece {
    /// Fixed text.
    Text(String),
    /// The message handed to the node.
    Message,
    /// The record's target.
    Target,
    /// The upper-case name of the record's level.
    LevelName,
}

/// What one piece writes for a message and a record.
pub open spec fn piece_text(p: Piece, msg: Seq<char>, meta: Metadata) -> Seq<char> {
    match p {
        Piece::Text(s) => s@,
        Piece::Message => msg,
        Piece::Target => meta.target@,
        Piece::LevelName => level_name(meta.level),
    }
}

/// What a template writes: its pieces, one after another.
pub open spec fn render(pieces: Seq<Piece>, msg: Seq<char>, meta: Metadata) -> Seq<char>
    decreases pieces.len(),
{
    if pieces.len() == 0 {
        Seq::empty()
    } else {
        render(pieces.drop_last(), msg, meta) + piece_text(pieces.last(), msg, meta)
    }
}

/// Writes the template `pieces` for message `msg` and record `meta`.
pub fn render_pieces(pieces: &Vec<Piece>, msg: &str, meta: &Metadata) -> (r: String)
    ensures
        r@ == render(pieces@, msg@, *meta),
{
    let mut out = String::new();
    let mut i: usize = 0;
    while i < pieces.len()
        invariant
            i <= pieces@.len(),
            out@ == render(pieces@.subrange(0, i as int), msg@, *meta),
        decreases pieces@.len() - i,
    {
        proof {
            assert(pieces@.subrange(0, i + 1).drop_last() =~= pieces@.subrange(0, i as int));
        }
        match &pieces[i] {
            Piece::Text(s) => out.append(s.as_str()),
            Piece::Message => out.append(msg),
            Piece::Target => out.append(meta.target.as_str()),
            Piece::LevelName => out.append(meta.level.as_str()),
        }
        i = i + 1;
    }
    proof {
        assert(pieces@.subrange(0, pieces@.len() as int) =~= pieces@);
    }
    out
}

/// The template that puts `before` in front of the message and `after` behind it.
pub fn wrap(before: &str, after: &str) -> (r: Vec<Piece>)
    ensures
        forall|msg: Seq<char>, meta: Metadata| #[trigger] render(r@, msg, meta) == before@ + msg + after@,
{
    let a = String::from_str(before);
    let b = String::from_str(after);
    let ghost pa = Piece::Text(a);
    let ghost pb = Piece::Text(b);
    let r = vec![Piece::Text(a), Piece::Message, Piece::Text(b)];
    assert(r@ == seq![pa, Piece::Message, pb]);
    proof {
        assert forall|msg: Seq<char>, meta: Metadata| #[trigger] render(r@, msg, meta) == before@ + msg + after@ by {
            let s2 = r@.drop_last();
            let s1 = s2.drop_last();
            let s0 = s1.drop_last();
            assert(s0.len() == 0);
            assert(render(s0, msg, meta) == Seq::<char>::empty());
            assert(s1.last() == pa);
            assert(render(s1, msg, meta) =~= before@);
            assert(render(s2, msg, meta) =~= before@ + msg);
            assert(render(r@, msg, meta) =~= before@ + msg + after@);
        }
    }
    r
}

/// The template that puts `before` in front of the message.
pub fn prefix(before: &str) -> (r: Vec<Piece>)
    ensures
        forall|msg: Seq<char>, meta: Metadata| #[trigger] render(r@, msg, meta) == before@ + msg,
{
    let a = String::from_str(before);
    let ghost pa = Piece::Text(a);
    let r = vec![Piece::Text(a), Piece::Message];
    assert(r@ == seq![pa, Piece::Message]);
    proof {
        assert forall|msg: Seq<char>, meta: Metadata| #[trigger] render(r@, msg, meta) == before@ + msg by {
            let s1 = r@.drop_last();
            let s0 = s1.drop_last();
            assert(s0.len() == 0);
            assert(render(s0, msg, meta) == Seq::<char>::empty());
            assert(s1.last() == pa);
            assert(render(s1, msg, meta) =~= before@);
            assert(render(r@, msg, meta) =~= before@ + msg);
        }
    }
    r
}

} // verus!
