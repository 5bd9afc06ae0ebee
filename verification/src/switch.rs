//! The acceptability filter and the watchlist aggregator.
//!
//! A catalog record ([`Game`]) is acceptable for a watchlist entry
//! ([`WatchedGame`]) when its title matches exactly and either its effective
//! price is at or below the entry's ceiling (when a ceiling is configured) or
//! the catalog marks it as discounted (when no ceiling is configured).

use vstd::prelude::*;

use crate::entities::WatchedGame;
use crate::text::push_char;
use vstd::string::StrSliceExecFns;
use vstd::string::StringExecFns;

verus! {

/// One search result from the remote catalog.
///
/// Every price field is optional: the catalog omits prices for some records,
/// and a missing price must stay distinct from a price of zero.  Prices are
/// in minor currency units (cents).
#[derive(Debug, PartialEq)]
pub struct Game {
    pub title: String,
    pub price_discounted: Option<u64>,
    pub price_regular: Option<u64>,
    pub price_has_discount: Option<bool>,
}

/// The effective price of a record: the lower of its two prices when both
/// are present, whichever is present when only one is, and `None` (meaning
/// unbounded, never below any ceiling) when neither is.
pub open spec fn spec_lowest_price(g: Game) -> Option<u64> {
    match (g.price_discounted, g.price_regular) {
        (Some(d), Some(r)) => if d <= r {
            Some(d)
        } else {
            Some(r)
        },
        (Some(d), None) => Some(d),
        (None, Some(r)) => Some(r),
        (None, None) => None,
    }
}

/// A record counts as on sale only when the catalog explicitly says so.
pub open spec fn spec_is_on_sale(g: Game) -> bool {
    g.price_has_discount == Some(true)
}

/// The effective price exists and is at or below the ceiling.
pub open spec fn spec_price_acceptable(g: Game, ceiling: u64) -> bool {
    match spec_lowest_price(g) {
        Some(p) => p <= ceiling,
        None => false,
    }
}

/// Exact, case-sensitive equality of the record's title and the entry's.
pub open spec fn spec_titles_match(g: Game, w: WatchedGame) -> bool {
    g.title@ == w.title@
}

/// The acceptability decision for one record: the title must match, and then
/// the price ceiling rules when one is configured, else the discount flag.
pub open spec fn game_accepted(w: WatchedGame, g: Game) -> bool {
    spec_titles_match(g, w) && match w.acceptable_price {
        Some(ceiling) => spec_price_acceptable(g, ceiling),
        None => spec_is_on_sale(g),
    }
}

/// The acceptability decision for one entry, as a predicate on records.
pub open spec fn accepted_pred(w: WatchedGame) -> spec_fn(Game) -> bool {
    |g: Game| game_accepted(w, g)
}

/// The acceptable records among `candidates`, in their original order.
pub open spec fn accepted_of(w: WatchedGame, candidates: Seq<Game>) -> Seq<Game> {
    candidates.filter(accepted_pred(w))
}

impl Game {
    pub fn new(title: &str) -> (r: Self)
        ensures
            r.title@ == title@,
            r.price_discounted is None,
            r.price_regular is None,
            r.price_has_discount is None,
    {
        Self {
            title: title.to_owned(),
            price_discounted: None,
            price_regular: None,
            price_has_discount: None,
        }
    }

    pub fn title(&self) -> (r: String)
        ensures
            r@ == self.title@,
    {
        self.title.clone()
    }

    pub fn lowest_price(&self) -> (r: Option<u64>)
        ensures
            r == spec_lowest_price(*self),
    {
        match self.price_discounted {
            Some(d) => match self.price_regular {
                Some(reg) => if d <= reg {
                    Some(d)
                } else {
                    Some(reg)
                },
                None => Some(d),
            },
            None => self.price_regular,
        }
    }

    pub fn is_on_sale(&self) -> (r: bool)
        ensures
            r == spec_is_on_sale(*self),
    {
        match self.price_has_discount {
            Some(b) => b,
            None => false,
        }
    }
}

impl Clone for Game {
    fn clone(&self) -> (r: Self)
        ensures
            r == *self,
    {
        Self {
            title: self.title.clone(),
            price_discounted: self.price_discounted,
            price_regular: self.price_regular,
            price_has_discount: self.price_has_discount,
        }
    }
}

impl Default for Game {
    /// A record with an empty title and no price information at all.
    fn default() -> (r: Self)
        ensures
            r.title@ == Seq::<char>::empty(),
            r.price_discounted is None,
            r.price_regular is None,
            r.price_has_discount is None,
    {
        Self {
            title: String::new(),
            price_discounted: None,
            price_regular: None,
            price_has_discount: None,
        }
    }
}

pub fn titles_match(game: &Game, watched_game: &WatchedGame) -> (r: bool)
    ensures
        r == spec_titles_match(*game, *watched_game),
{
    let game_title = game.title();
    let watched_title = watched_game.title();
    game_title.eq(&watched_title)
}

pub fn check_price_acceptable(game: &Game, price: u64) -> (r: bool)
    ensures
        r == spec_price_acceptable(*game, price),
{
    match game.lowest_price() {
        Some(p) => p <= price,
        None => false,
    }
}

pub fn price_acceptable(game: &Game, watched_game: &WatchedGame) -> (r: bool)
    ensures
        r == (match watched_game.acceptable_price {
            Some(ceiling) => spec_price_acceptable(*game, ceiling),
            None => false,
        }),
{
    let mut result = false;
    if let Some(price) = watched_game.acceptable_price() {
        result = check_price_acceptable(game, price);
    }
    result
}

pub fn is_on_sale(game: &Game) -> (r: bool)
    ensures
        r == spec_is_on_sale(*game),
{
    game.is_on_sale()
}

/// The acceptability filter: keeps exactly the records of `games` that are
/// acceptable for `watched_game`, preserving their relative order.
pub fn filter(games: Vec<Game>, watched_game: &WatchedGame) -> (r: Vec<Game>)
    ensures
        r@ == accepted_of(*watched_game, games@),
{
    let mut result: Vec<Game> = Vec::new();
    let mut i: usize = 0;
    while i < games.len()
        invariant
            i <= games.len(),
            result@ == accepted_of(*watched_game, games@.subrange(0, i as int)),
        decreases games.len() - i,
    {
        let game = &games[i];
        let keep = titles_match(game, watched_game) && (if watched_game
            .acceptable_price()
            .is_some() {
            price_acceptable(game, watched_game)
        } else {
            is_on_sale(game)
        });
        if keep {
            result.push(game.clone());
        }
        proof {
            reveal(Seq::filter);
            let done = games@.subrange(0, (i + 1) as int);
            assert(done.drop_last() =~= games@.subrange(0, i as int));
            assert(done.last() == games@[i as int]);
            assert(keep == game_accepted(*watched_game, games@[i as int]));
        }
        i += 1;
    }
    proof {
        assert(games@.subrange(0, games@.len() as int) =~= games@);
    }
    result
}

/// What the provider may have contributed for one watchlist entry: either a
/// candidate list it actually returned for the entry's title, or the empty
/// list when it failed.
pub open spec fn provider_outcome<F, E>(provider: F, w: WatchedGame, out: Seq<Game>) -> bool where
    F: Fn(String) -> Result<Vec<Game>, E>,
 {
    exists|t: String, ret: Result<Vec<Game>, E>|
        t@ == w.title@ && #[trigger] call_ensures(provider, (t,), ret) && (match ret {
            Ok(found) => out == found@,
            Err(_) => out == Seq::<Game>::empty(),
        })
}

/// The concatenation, in watchlist order, of the acceptable records of each
/// entry's candidate list.
pub open spec fn sweep(ws: Seq<WatchedGame>, outs: Seq<Seq<Game>>) -> Seq<Game>
    decreases ws.len(),
{
    if ws.len() == 0 {
        Seq::empty()
    } else {
        accepted_of(ws[0], outs[0]) + sweep(ws.drop_first(), outs.drop_first())
    }
}

/// The aggregator's whole contract: the result is the sweep of some
/// per-entry candidate lists, each of which the provider either returned for
/// that entry's title or stands empty for because the provider failed.
pub open spec fn sweep_outcome<F, E>(provider: F, ws: Seq<WatchedGame>, result: Seq<Game>) -> bool where
    F: Fn(String) -> Result<Vec<Game>, E>,
 {
    exists|outs: Seq<Seq<Game>>|
        #![trigger sweep(ws, outs)]
        outs.len() == ws.len() && result == sweep(ws, outs) && (forall|i: int|
            0 <= i < outs.len() ==> provider_outcome(provider, ws[i], outs[i]))
}

/// The aggregator: queries the provider once per watchlist entry, in order,
/// filters each answer, and concatenates the results.  A provider failure
/// for one entry contributes nothing and never aborts the sweep.
pub fn acceptable_games<F, E>(watched_games: &Vec<WatchedGame>, games_provider: F) -> (r: Vec<
    Game,
>) where F: Fn(String) -> Result<Vec<Game>, E>
    requires
        forall|i: int, t: String|
            #![trigger watched_games@[i], call_requires(games_provider, (t,))]
            0 <= i < watched_games@.len() && t@ == watched_games@[i].title@ ==> call_requires(
                games_provider,
                (t,),
            ),
    ensures
        sweep_outcome(games_provider, watched_games@, r@),
        watched_games@.len() == 0 ==> r@ == Seq::<Game>::empty(),
{
    let mut games: Vec<Game> = Vec::new();
    let ghost mut outs: Seq<Seq<Game>> = Seq::empty();
    let mut i: usize = 0;
    while i < watched_games.len()
        invariant
            forall|k: int, t: String|
                #![trigger watched_games@[k], call_requires(games_provider, (t,))]
                0 <= k < watched_games@.len() && t@ == watched_games@[k].title@ ==> call_requires(
                    games_provider,
                    (t,),
                ),
            i <= watched_games@.len(),
            outs.len() == i,
            games@ == sweep(watched_games@.subrange(0, i as int), outs),
            forall|k: int|
                0 <= k < i ==> provider_outcome(
                    games_provider,
                    watched_games@[k],
                    #[trigger] outs[k],
                ),
        decreases watched_games@.len() - i,
    {
        let watched_game = &watched_games[i];
        let title = watched_game.title();
        let ghost sent_title = title;
        let answer = games_provider(title);
        let ghost got_answer = answer;
        let found_games: Vec<Game> = match answer {
            Ok(found) => found,
            Err(_) => Vec::new(),
        };
        proof {
            let ghost prev_outs = outs;
            outs = outs.push(found_games@);
            assert(call_ensures(games_provider, (sent_title,), got_answer));
            assert(provider_outcome(games_provider, watched_games@[i as int], found_games@));
            lemma_sweep_push(
                watched_games@.subrange(0, i as int),
                prev_outs,
                watched_games@[i as int],
                found_games@,
            );
            assert(watched_games@.subrange(0, (i + 1) as int) =~= watched_games@.subrange(
                0,
                i as int,
            ).push(watched_games@[i as int]));
        }
        let mut filtered = filter(found_games, watched_game);
        games.append(&mut filtered);
        i += 1;
    }
    proof {
        assert(watched_games@.subrange(0, watched_games@.len() as int) =~= watched_games@);
        assert(sweep_outcome(games_provider, watched_games@, games@)) by {
            assert(outs.len() == watched_games@.len() && games@ == sweep(watched_games@, outs) && (
            forall|k: int|
                0 <= k < outs.len() ==> provider_outcome(
                    games_provider,
                    watched_games@[k],
                    #[trigger] outs[k],
                )));
        }
    }
    games
}

/// Extending the watchlist and its candidate lists by one entry appends that
/// entry's acceptable records at the end of the sweep.
proof fn lemma_sweep_push(ws: Seq<WatchedGame>, outs: Seq<Seq<Game>>, w: WatchedGame, out: Seq<Game>)
    requires
        ws.len() == outs.len(),
    ensures
        sweep(ws.push(w), outs.push(out)) == sweep(ws, outs) + accepted_of(w, out),
    decreases ws.len(),
{
    let lhs = sweep(ws.push(w), outs.push(out));
    if ws.len() == 0 {
        assert(ws.push(w)[0] == w);
        assert(outs.push(out)[0] == out);
        assert(ws.push(w).drop_first() =~= Seq::<WatchedGame>::empty());
        assert(outs.push(out).drop_first() =~= Seq::<Seq<Game>>::empty());
        assert(sweep(Seq::<WatchedGame>::empty(), Seq::<Seq<Game>>::empty())
            == Seq::<Game>::empty());
        assert(lhs == accepted_of(w, out) + Seq::<Game>::empty());
        assert(lhs =~= accepted_of(w, out));
        assert(sweep(ws, outs) + accepted_of(w, out) =~= accepted_of(w, out));
    } else {
        assert(ws.push(w).drop_first() =~= ws.drop_first().push(w));
        assert(outs.push(out).drop_first() =~= outs.drop_first().push(out));
        lemma_sweep_push(ws.drop_first(), outs.drop_first(), w, out);
        assert(ws.push(w)[0] == ws[0]);
        assert(outs.push(out)[0] == outs[0]);
        assert(lhs =~= accepted_of(ws[0], outs[0]) + (sweep(ws.drop_first(), outs.drop_first())
            + accepted_of(w, out)));
        assert(accepted_of(ws[0], outs[0]) + (sweep(ws.drop_first(), outs.drop_first())
            + accepted_of(w, out)) =~= (accepted_of(ws[0], outs[0]) + sweep(
            ws.drop_first(),
            outs.drop_first(),
        )) + accepted_of(w, out));
    }
}

/// What one character of the title becomes in the search expression: a colon
/// is escaped for the query engine, everything else stands as it is.
pub open spec fn escape_piece(c: char) -> Seq<char> {
    if c == ':' {
        seq!['\\', ':']
    } else {
        seq![c]
    }
}

/// The title with every colon escaped.
pub open spec fn escape_colons(s: Seq<char>) -> Seq<char>
    decreases s.len(),
{
    if s.len() == 0 {
        Seq::empty()
    } else {
        escape_piece(s[0]) + escape_colons(s.drop_first())
    }
}

proof fn lemma_escape_colons_push(s: Seq<char>, c: char)
    ensures
        escape_colons(s.push(c)) == escape_colons(s) + escape_piece(c),
    decreases s.len(),
{
    if s.len() == 0 {
        assert(s.push(c).drop_first() =~= Seq::<char>::empty());
        assert(escape_colons(Seq::<char>::empty()) == Seq::<char>::empty());
        assert(s.push(c)[0] == c);
        assert(escape_colons(s.push(c)) == escape_piece(c) + Seq::<char>::empty());
        assert(escape_piece(c) + Seq::<char>::empty() =~= escape_piece(c));
        assert(escape_colons(s) + escape_piece(c) =~= escape_piece(c));
    } else {
        assert(s.push(c).drop_first() =~= s.drop_first().push(c));
        lemma_escape_colons_push(s.drop_first(), c);
        assert(s.push(c)[0] == s[0]);
        assert(escape_colons(s.push(c)) == escape_piece(s[0]) + (escape_colons(s.drop_first())
            + escape_piece(c)));
        assert(escape_piece(s[0]) + (escape_colons(s.drop_first()) + escape_piece(c)) =~= (
        escape_piece(s[0]) + escape_colons(s.drop_first())) + escape_piece(c));
    }
}

fn escape_title(title: &str) -> (r: String)
    ensures
        r@ == escape_colons(title@),
{
    let n: usize = title.unicode_len();
    let mut out = String::new();
    let mut i: usize = 0;
    while i < n
        invariant
            n == title@.len(),
            i <= n,
            out@ == escape_colons(title@.subrange(0, i as int)),
        decreases n - i,
    {
        let ghost prev = out@;
        let c = title.get_char(i);
        if c == ':' {
            push_char(&mut out, '\\');
            push_char(&mut out, ':');
        } else {
            push_char(&mut out, c);
        }
        proof {
            lemma_escape_colons_push(title@.subrange(0, i as int), title@[i as int]);
            assert(title@.subrange(0, (i + 1) as int) =~= title@.subrange(0, i as int).push(
                title@[i as int],
            ));
            assert(out@ =~= prev + escape_piece(title@[i as int]));
        }
        i += 1;
    }
    proof {
        assert(title@.subrange(0, title@.len() as int) =~= title@);
    }
    out
}

/// The catalog search URL for one title: the title goes into the query both
/// escaped (inside the filter expression) and as it is (as the query text).
pub open spec fn spec_build_url(title: Seq<char>) -> Seq<char> {
    ("http://search.nintendo-europe.com/en/select?rows=99&fq=type:GAME%20AND%20system_type:nintendoswitch*%20AND%20product_code_txt:*%20AND%20title:")@
        + escape_colons(title) + ("&q=")@ + title
        + ("&sort=sorting_title%20asc&start=0&wt=json")@
}

pub fn build_url(title: &str) -> (r: String)
    ensures
        r@ == spec_build_url(title@),
{
    let escaped = escape_title(title);
    let mut url = String::new();
    url.append(
        "http://search.nintendo-europe.com/en/select?rows=99&fq=type:GAME%20AND%20system_type:nintendoswitch*%20AND%20product_code_txt:*%20AND%20title:",
    );
    url.append(escaped.as_str());
    url.append("&q=");
    url.append(title);
    url.append("&sort=sorting_title%20asc&start=0&wt=json");
    proof {
        assert(url@ =~= spec_build_url(title@));
    }
    url
}

/// Membership in the filter's output: a record is kept iff it was among the
/// candidates and is acceptable.
pub proof fn lemma_accepted_members(w: WatchedGame, candidates: Seq<Game>, g: Game)
    ensures
        accepted_of(w, candidates).contains(g) <==> (candidates.contains(g) && game_accepted(
            w,
            g,
        )),
{
    if accepted_of(w, candidates).contains(g) {
        let j = choose|j: int|
            0 <= j < accepted_of(w, candidates).len() && accepted_of(w, candidates)[j] == g;
        candidates.lemma_filter_pred(accepted_pred(w), j);
        candidates.lemma_filter_contains_rev(accepted_pred(w), g);
    }
    if candidates.contains(g) && game_accepted(w, g) {
        let j = choose|j: int| 0 <= j < candidates.len() && candidates[j] == g;
        candidates.lemma_filter_contains(accepted_pred(w), j);
    }
}

/// Title gate: a record whose title is not exactly the entry's title is
/// never part of the filter's output, whatever its prices or flags say.
pub proof fn lemma_title_gate(w: WatchedGame, candidates: Seq<Game>, g: Game)
    requires
        g.title@ != w.title@,
    ensures
        !accepted_of(w, candidates).contains(g),
{
    lemma_accepted_members(w, candidates, g);
}

/// Price ceiling: with a ceiling configured and both prices present, a
/// record is acceptable iff its title matches and the lower of the two
/// prices is at or below the ceiling.
pub proof fn lemma_price_ceiling(w: WatchedGame, g: Game, ceiling: u64, disc: u64, reg: u64)
    requires
        w.acceptable_price == Some(ceiling),
        g.price_discounted == Some(disc),
        g.price_regular == Some(reg),
    ensures
        game_accepted(w, g) <==> (g.title@ == w.title@ && (if disc <= reg {
            disc
        } else {
            reg
        }) <= ceiling),
{
}

/// Unbounded on missing price: with a ceiling configured, a record that
/// carries no price information at all is never acceptable and never kept.
pub proof fn lemma_priceless_excluded(w: WatchedGame, candidates: Seq<Game>, g: Game)
    requires
        w.acceptable_price is Some,
        g.price_discounted is None,
        g.price_regular is None,
    ensures
        !game_accepted(w, g),
        !accepted_of(w, candidates).contains(g),
{
    lemma_accepted_members(w, candidates, g);
}

/// Discount-only path: without a ceiling, a record is acceptable iff its
/// title matches and the catalog explicitly flags it as discounted; a
/// missing flag excludes it.
pub proof fn lemma_discount_only(w: WatchedGame, g: Game)
    requires
        w.acceptable_price is None,
    ensures
        game_accepted(w, g) <==> (g.title@ == w.title@ && g.price_has_discount == Some(true)),
{
}

/// Empty in, empty out: filtering an empty candidate list yields nothing,
/// and sweeping an empty watchlist yields nothing, whatever the provider
/// would have answered.
pub proof fn lemma_empty_inputs(w: WatchedGame, outs: Seq<Seq<Game>>)
    ensures
        accepted_of(w, Seq::<Game>::empty()) == Seq::<Game>::empty(),
        sweep(Seq::<WatchedGame>::empty(), outs) == Seq::<Game>::empty(),
{
    reveal(Seq::filter);
}

/// Fault isolation: an entry whose query failed (an empty candidate list)
/// contributes nothing at all, and the rest of the sweep is exactly the
/// sweep of the watchlist without that entry.
pub proof fn lemma_fault_isolation(ws: Seq<WatchedGame>, outs: Seq<Seq<Game>>, i: int)
    requires
        ws.len() == outs.len(),
        0 <= i < ws.len(),
        outs[i] == Seq::<Game>::empty(),
    ensures
        sweep(ws, outs) == sweep(ws.remove(i), outs.remove(i)),
    decreases ws.len(),
{
    reveal(Seq::filter);
    if i == 0 {
        assert(accepted_of(ws[0], outs[0]) == Seq::<Game>::empty());
        assert(ws.remove(0) =~= ws.drop_first());
        assert(outs.remove(0) =~= outs.drop_first());
        assert(Seq::<Game>::empty() + sweep(ws.drop_first(), outs.drop_first()) =~= sweep(
            ws.drop_first(),
            outs.drop_first(),
        ));
    } else {
        lemma_fault_isolation(ws.drop_first(), outs.drop_first(), i - 1);
        assert(ws.remove(i)[0] == ws[0]);
        assert(outs.remove(i)[0] == outs[0]);
        assert(ws.remove(i).drop_first() =~= ws.drop_first().remove(i - 1));
        assert(outs.remove(i).drop_first() =~= outs.drop_first().remove(i - 1));
    }
}

} // verus!
