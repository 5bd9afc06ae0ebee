//! Rendering of the notification body for the matched games.

use vstd::prelude::*;

use crate::switch::Game;
use crate::text::push_decimal;
use crate::text::spec_decimal;
use vstd::string::StringExecFns;

verus! {

/// At most this many titles are listed in one notification; the rest are
/// summed up in a trailing "and N more" line.
pub const MAX_GAMES_IN_NOTIFICATION: usize = 10;

/// One line of the notification body.
pub open spec fn spec_line(g: Game) -> Seq<char> {
    ("- ")@ + g.title@ + ("\n")@
}

/// The lines for a list of games, in order.
pub open spec fn spec_lines(gs: Seq<Game>) -> Seq<char>
    decreases gs.len(),
{
    if gs.len() == 0 {
        Seq::empty()
    } else {
        spec_line(gs[0]) + spec_lines(gs.drop_first())
    }
}

/// The whole notification body: one line per game up to the cap, then a
/// trailing count of the games left out, if any.
pub open spec fn spec_build_body(gs: Seq<Game>) -> Seq<char> {
    if gs.len() <= MAX_GAMES_IN_NOTIFICATION {
        spec_lines(gs)
    } else {
        spec_lines(gs.take(MAX_GAMES_IN_NOTIFICATION as int)) + ("and ")@ + spec_decimal(
            (gs.len() - MAX_GAMES_IN_NOTIFICATION) as nat,
        ) + (" more")@
    }
}

proof fn lemma_lines_push(gs: Seq<Game>, g: Game)
    ensures
        spec_lines(gs.push(g)) == spec_lines(gs) + spec_line(g),
    decreases gs.len(),
{
    if gs.len() == 0 {
        assert(gs.push(g).drop_first() =~= Seq::<Game>::empty());
        assert(spec_lines(Seq::<Game>::empty()) == Seq::<char>::empty());
        assert(gs.push(g)[0] == g);
        assert(spec_lines(gs.push(g)) == spec_line(g) + Seq::<char>::empty());
        assert(spec_line(g) + Seq::<char>::empty() =~= spec_line(g));
        assert(spec_lines(gs) + spec_line(g) =~= spec_line(g));
    } else {
        assert(gs.push(g).drop_first() =~= gs.drop_first().push(g));
        lemma_lines_push(gs.drop_first(), g);
        assert(gs.push(g)[0] == gs[0]);
        assert(spec_lines(gs.push(g)) == spec_line(gs[0]) + (spec_lines(gs.drop_first())
            + spec_line(g)));
        assert(spec_line(gs[0]) + (spec_lines(gs.drop_first()) + spec_line(g)) =~= (spec_line(
            gs[0],
        ) + spec_lines(gs.drop_first())) + spec_line(g));
    }
}

/// Builds the notification body for the matched games.
pub fn build_body(games: &Vec<Game>) -> (r: String)
    ensures
        r@ == spec_build_body(games@),
{
    let max_len: usize = if MAX_GAMES_IN_NOTIFICATION < games.len() {
        MAX_GAMES_IN_NOTIFICATION
    } else {
        games.len()
    };
    let mut body = String::new();
    let mut i: usize = 0;
    while i < max_len
        invariant
            i <= max_len,
            max_len <= games@.len(),
            max_len == if MAX_GAMES_IN_NOTIFICATION < games@.len() {
                MAX_GAMES_IN_NOTIFICATION as int
            } else {
                games@.len() as int
            },
            body@ == spec_lines(games@.subrange(0, i as int)),
        decreases max_len - i,
    {
        let ghost prev = body@;
        body.append("- ");
        let title = games[i].title();
        body.append(title.as_str());
        body.append("\n");
        proof {
            lemma_lines_push(games@.subrange(0, i as int), games@[i as int]);
            assert(games@.subrange(0, (i + 1) as int) =~= games@.subrange(0, i as int).push(
                games@[i as int],
            ));
            assert(body@ =~= prev + spec_line(games@[i as int]));
        }
        i += 1;
    }
    if games.len() > MAX_GAMES_IN_NOTIFICATION {
        body.append("and ");
        push_decimal(&mut body, (games.len() - MAX_GAMES_IN_NOTIFICATION) as u64);
        body.append(" more");
        proof {
            assert(games@.subrange(0, MAX_GAMES_IN_NOTIFICATION as int) =~= games@.take(
                MAX_GAMES_IN_NOTIFICATION as int,
            ));
            assert(body@ =~= spec_build_body(games@));
        }
    } else {
        proof {
            assert(games@.subrange(0, games@.len() as int) =~= games@);
        }
    }
    body
}

} // verus!
