//! The background price aggregator: the coins it starts with, and the
//! decisions of its endless cycle (load the coins, fetch their prices, store
//! a snapshot per priced coin, pause), as a state machine whose actions the
//! caller performs.

use vstd::prelude::*;
use crate::coingecko::{spec_coingecko_id, spec_symbol_id, symbol_to_coingecko_id};
use crate::text::{same_text, string_views};

verus! {

/// A coin that the aggregator creates at start-up where it is missing.
#[derive(Debug, Clone, Copy)]
pub struct DefaultCoin {
    pub symbol: &'static str,
    pub name: &'static str,
    pub decimals: i32,
}

/// The coins the aggregator starts with: symbol, name and decimals.
pub open spec fn spec_default_coins() -> Seq<(Seq<char>, Seq<char>, i32)> {
    seq![
        ("BTC"@, "Bitcoin"@, 8i32),
        ("ETH"@, "Ethereum"@, 18i32),
        ("SOL"@, "Solana"@, 9i32),
        ("USDT"@, "Tether"@, 6i32),
        ("USDC"@, "USD Coin"@, 6i32),
        ("BNB"@, "Binance Coin"@, 18i32),
        ("XRP"@, "Ripple"@, 6i32),
        ("ADA"@, "Cardano"@, 6i32),
        ("DOGE"@, "Dogecoin"@, 8i32),
    ]
}

/// The view of a default coin.
pub open spec fn default_coin_view(c: DefaultCoin) -> (Seq<char>, Seq<char>, i32) {
    (c.symbol@, c.name@, c.decimals)
}

/// The coins the aggregator starts with, in order.
pub fn default_coins() -> (coins: Vec<DefaultCoin>)
    ensures
        coins@.map_values(|c: DefaultCoin| default_coin_view(c)) == spec_default_coins(),
{
    let coins = vec![
        DefaultCoin { symbol: "BTC", name: "Bitcoin", decimals: 8 },
        DefaultCoin { symbol: "ETH", name: "Ethereum", decimals: 18 },
        DefaultCoin { symbol: "SOL", name: "Solana", decimals: 9 },
        DefaultCoin { symbol: "USDT", name: "Tether", decimals: 6 },
        DefaultCoin { symbol: "USDC", name: "USD Coin", decimals: 6 },
        DefaultCoin { symbol: "BNB", name: "Binance Coin", decimals: 18 },
        DefaultCoin { symbol: "XRP", name: "Ripple", decimals: 6 },
        DefaultCoin { symbol: "ADA", name: "Cardano", decimals: 6 },
        DefaultCoin { symbol: "DOGE", name: "Dogecoin", decimals: 8 },
    ];
    assert(coins@.map_values(|c: DefaultCoin| default_coin_view(c)) =~= spec_default_coins());
    coins
}

/// Every coin the aggregator starts with has a CoinGecko id, so its price
/// can be fetched.
pub proof fn lemma_default_coins_have_ids()
    ensures
        forall|i: int| 0 <= i < spec_default_coins().len()
            ==> spec_coingecko_id(#[trigger] spec_default_coins()[i].0) is Some,
{
}

/// What creating the default coins waits for.
#[derive(Debug, Clone, Copy, PartialEq, Eq, Structural)]
pub enum SeedPhase {
    /// A database connection.
    Connecting,
    /// Whether the coin at this position of the table is stored.
    LookingUp(usize),
    /// The insertion of the coin at this position of the table.
    Inserting(usize),
    /// Nothing: every default coin is stored.
    Done,
    /// Nothing: a step failed, and the error ends the creation.
    Failed,
}

/// What the caller is to do next while creating the default coins.
pub enum SeedAction {
    /// Get a database connection.
    Connect,
    /// Look up whether a coin with this symbol is stored.
    Lookup(DefaultCoin),
    /// Store this coin.
    Insert(DefaultCoin),
    /// All default coins are stored: report success.
    Finish,
    /// Report the error of the step that failed.
    Fail,
}

/// What became of the last seeding action.
#[derive(Debug, Clone, Copy, PartialEq, Eq, Structural)]
pub enum SeedEvent {
    Connected,
    ConnectFailed,
    /// The coin looked up is stored.
    Found,
    /// The coin looked up is not stored.
    Missing,
    LookupFailed,
    Inserted,
    InsertFailed,
}

/// The mathematical content of a seeding action.
pub enum SeedActionView {
    Connect,
    Lookup((Seq<char>, Seq<char>, i32)),
    Insert((Seq<char>, Seq<char>, i32)),
    Finish,
    Fail,
}

impl View for SeedAction {
    type V = SeedActionView;

    open spec fn view(&self) -> SeedActionView {
        match self {
            SeedAction::Connect => SeedActionView::Connect,
            SeedAction::Lookup(c) => SeedActionView::Lookup(default_coin_view(*c)),
            SeedAction::Insert(c) => SeedActionView::Insert(default_coin_view(*c)),
            SeedAction::Finish => SeedActionView::Finish,
            SeedAction::Fail => SeedActionView::Fail,
        }
    }
}

/// Does `e` answer the action that seeding in `phase` waits on?
pub open spec fn seed_answers(phase: SeedPhase, e: SeedEvent) -> bool {
    match phase {
        SeedPhase::Connecting => e is Connected || e is ConnectFailed,
        SeedPhase::LookingUp(_) => e is Found || e is Missing || e is LookupFailed,
        SeedPhase::Inserting(_) => e is Inserted || e is InsertFailed,
        SeedPhase::Done => false,
        SeedPhase::Failed => false,
    }
}

/// Going on with the coin at position `i` of the table: look it up, or
/// finish once the table is through.
pub open spec fn seed_continue(i: int) -> (SeedPhase, SeedActionView) {
    if i < spec_default_coins().len() {
        (SeedPhase::LookingUp(i as usize), SeedActionView::Lookup(spec_default_coins()[i]))
    } else {
        (SeedPhase::Done, SeedActionView::Finish)
    }
}

/// The decision of the coin creation on event `e` in `phase`: the coins of
/// the table are looked up in order, a missing one is inserted, and the first
/// failure ends the creation.
pub open spec fn spec_seed_step(phase: SeedPhase, e: SeedEvent) -> (SeedPhase, SeedActionView) {
    match e {
        SeedEvent::Connected => seed_continue(0),
        SeedEvent::Found => match phase {
            SeedPhase::LookingUp(i) => seed_continue(i + 1),
            _ => (SeedPhase::Failed, SeedActionView::Fail),
        },
        SeedEvent::Missing => match phase {
            SeedPhase::LookingUp(i) => (SeedPhase::Inserting(i), SeedActionView::Insert(spec_default_coins()[i as int])),
            _ => (SeedPhase::Failed, SeedActionView::Fail),
        },
        SeedEvent::Inserted => match phase {
            SeedPhase::Inserting(i) => seed_continue(i + 1),
            _ => (SeedPhase::Failed, SeedActionView::Fail),
        },
        _ => (SeedPhase::Failed, SeedActionView::Fail),
    }
}

/// Seeding positions stay within the table.
pub open spec fn seed_phase_valid(phase: SeedPhase) -> bool {
    match phase {
        SeedPhase::LookingUp(i) => i < spec_default_coins().len(),
        SeedPhase::Inserting(i) => i < spec_default_coins().len(),
        _ => true,
    }
}

/// The creation of the default coins that are missing, as a state machine.
pub struct CoinSeeding {
    phase: SeedPhase,
    coins: Vec<DefaultCoin>,
}

impl View for CoinSeeding {
    type V = SeedPhase;

    closed spec fn view(&self) -> SeedPhase {
        self.phase
    }
}

impl CoinSeeding {
    #[verifier::type_invariant]
    spec fn holds_table(self) -> bool {
        &&& self.coins@.map_values(|c: DefaultCoin| default_coin_view(c)) == spec_default_coins()
        &&& seed_phase_valid(self.phase)
    }

    /// A new creation of the default coins and its first action: getting a
    /// connection.
    pub fn start() -> (r: (CoinSeeding, SeedAction))
        ensures
            r.0@ == SeedPhase::Connecting,
            r.1@ == SeedActionView::Connect,
    {
        (CoinSeeding { phase: SeedPhase::Connecting, coins: default_coins() }, SeedAction::Connect)
    }

    /// What the creation waits for.
    pub fn phase(&self) -> (p: SeedPhase)
        ensures
            p == self@,
    {
        self.phase
    }

    fn go_on(&mut self, i: usize) -> (a: SeedAction)
        requires
            i <= spec_default_coins().len(),
        ensures
            (final(self)@, a@) == seed_continue(i as int),
    {
        proof {
            use_type_invariant(&*self);
        }
        if i < self.coins.len() {
            assert(self.coins@.map_values(|c: DefaultCoin| default_coin_view(c))[i as int] == default_coin_view(self.coins@[i as int]));
            self.phase = SeedPhase::LookingUp(i);
            SeedAction::Lookup(self.coins[i])
        } else {
            self.phase = SeedPhase::Done;
            SeedAction::Finish
        }
    }

    /// Takes in what became of the last action and gives the next one (see
    /// `spec_seed_step`).
    pub fn on_event(&mut self, event: SeedEvent) -> (action: SeedAction)
        requires
            seed_answers(old(self)@, event),
        ensures
            (final(self)@, action@) == spec_seed_step(old(self)@, event),
    {
        proof {
            use_type_invariant(&*self);
        }
        match (event, self.phase) {
            (SeedEvent::Connected, _) => self.go_on(0),
            (SeedEvent::Found, SeedPhase::LookingUp(i)) => self.go_on(i + 1),
            (SeedEvent::Missing, SeedPhase::LookingUp(i)) => {
                assert(self.coins@.map_values(|c: DefaultCoin| default_coin_view(c))[i as int] == default_coin_view(self.coins@[i as int]));
                self.phase = SeedPhase::Inserting(i);
                SeedAction::Insert(self.coins[i])
            },
            (SeedEvent::Inserted, SeedPhase::Inserting(i)) => self.go_on(i + 1),
            _ => {
                self.phase = SeedPhase::Failed;
                SeedAction::Fail
            },
        }
    }
}

/// Creating the coins inserts only coins that were found missing, and
/// reports success only once every coin of the table has been looked up.
pub proof fn lemma_seeding_inserts_only_missing(phase: SeedPhase, e: SeedEvent)
    requires
        seed_answers(phase, e),
        seed_phase_valid(phase),
    ensures
        spec_seed_step(phase, e).1 is Insert ==> (e == SeedEvent::Missing && (phase matches SeedPhase::LookingUp(i)
            && spec_seed_step(phase, e).1 == SeedActionView::Insert(spec_default_coins()[i as int]))),
        spec_seed_step(phase, e).1 is Finish ==> (phase matches SeedPhase::LookingUp(i) && i + 1
            == spec_default_coins().len()) || (phase matches SeedPhase::Inserting(i) && i + 1
            == spec_default_coins().len()),
        seed_phase_valid(spec_seed_step(phase, e).0),
{
}

/// Creating the coins walks the table in order: after connecting it looks
/// up the first coin, and after the coin at position `i` is found or
/// inserted it looks up the coin at position `i + 1`, or reports success
/// once the table is through.
pub proof fn lemma_seeding_walks_table(i: usize)
    requires
        i < spec_default_coins().len(),
    ensures
        spec_seed_step(SeedPhase::Connecting, SeedEvent::Connected).1 == SeedActionView::Lookup(spec_default_coins()[0]),
        spec_seed_step(SeedPhase::LookingUp(i), SeedEvent::Found).1 == (if i + 1 < spec_default_coins().len() {
            SeedActionView::Lookup(spec_default_coins()[i + 1])
        } else {
            SeedActionView::Finish
        }),
        spec_seed_step(SeedPhase::Inserting(i), SeedEvent::Inserted).1 == (if i + 1 < spec_default_coins().len() {
            SeedActionView::Lookup(spec_default_coins()[i + 1])
        } else {
            SeedActionView::Finish
        }),
        spec_seed_step(SeedPhase::LookingUp(i), SeedEvent::Missing).1 == SeedActionView::Insert(spec_default_coins()[i as int]),
        spec_seed_step(SeedPhase::LookingUp(i), SeedEvent::LookupFailed).1 is Fail,
        spec_seed_step(SeedPhase::Inserting(i), SeedEvent::InsertFailed).1 is Fail,
        spec_seed_step(SeedPhase::Connecting, SeedEvent::ConnectFailed).1 is Fail,
{
}

/// A snapshot to store: the coin (its position in the loaded list) and the
/// CoinGecko id whose price it records.
#[derive(Debug, Clone, Copy)]
pub struct SnapshotTarget {
    pub coin: usize,
    pub gecko_id: &'static str,
}

/// The view of a snapshot target.
pub open spec fn target_view(t: SnapshotTarget) -> (int, Seq<char>) {
    (t.coin as int, t.gecko_id@)
}

/// The views of a sequence of snapshot targets.
pub open spec fn target_views(v: Seq<SnapshotTarget>) -> Seq<(int, Seq<char>)> {
    v.map_values(|t: SnapshotTarget| target_view(t))
}

/// The snapshots to store after a fetch: one for each loaded coin, in load
/// order, whose symbol has a CoinGecko id for which a price came back.
pub open spec fn spec_snapshot_targets(symbols: Seq<Seq<char>>, priced: Seq<Seq<char>>) -> Seq<(int, Seq<char>)>
    decreases symbols.len(),
{
    if symbols.len() == 0 {
        Seq::<(int, Seq<char>)>::empty()
    } else {
        let rest = spec_snapshot_targets(symbols.drop_last(), priced);
        match spec_symbol_id(symbols.last()) {
            Some(id) => if priced.contains(id) {
                rest.push(((symbols.len() - 1) as int, id))
            } else {
                rest
            },
            None => rest,
        }
    }
}

fn contains_text(list: &Vec<String>, s: &str) -> (r: bool)
    ensures
        r == string_views(list@).contains(s@),
{
    let mut i: usize = 0;
    while i < list.len()
        invariant
            i <= list@.len(),
            forall|k: int| 0 <= k < i ==> list@[k]@ != s@,
        decreases list@.len() - i,
    {
        if same_text(list[i].as_str(), s) {
            assert(string_views(list@)[i as int] == s@);
            return true;
        }
        i = i + 1;
    }
    assert forall|k: int| 0 <= k < string_views(list@).len() implies string_views(list@)[k] != s@ by {
        assert(string_views(list@)[k] == list@[k]@);
    }
    false
}

/// The snapshots to store (see `spec_snapshot_targets`), for the loaded
/// `symbols` and the CoinGecko ids `priced` that a price came back for.
pub fn snapshot_targets(symbols: &Vec<String>, priced: &Vec<String>) -> (t: Vec<SnapshotTarget>)
    ensures
        target_views(t@) == spec_snapshot_targets(string_views(symbols@), string_views(priced@)),
{
    let ghost pv = string_views(priced@);
    let mut targets: Vec<SnapshotTarget> = Vec::new();
    let mut i: usize = 0;
    assert(string_views(symbols@.take(0)) =~= Seq::<Seq<char>>::empty());
    while i < symbols.len()
        invariant
            i <= symbols@.len(),
            pv == string_views(priced@),
            target_views(targets@) == spec_snapshot_targets(string_views(symbols@.take(i as int)), pv),
        decreases symbols@.len() - i,
    {
        let ghost before = string_views(symbols@.take(i as int));
        let ghost now = string_views(symbols@.take(i + 1));
        assert(now.drop_last() =~= before);
        assert(now.last() == symbols@[i as int]@);
        assert(now.len() - 1 == i);
        match symbol_to_coingecko_id(symbols[i].as_str()) {
            Some(id) => {
                if contains_text(priced, id) {
                    let ghost prev = targets@;
                    let t = SnapshotTarget { coin: i, gecko_id: id };
                    targets.push(t);
                    assert(target_views(targets@) =~= target_views(prev).push(target_view(t)));
                }
            },
            None => {},
        }
        i = i + 1;
    }
    assert(symbols@.take(symbols@.len() as int) =~= symbols@);
    targets
}

/// Every stored snapshot belongs to a loaded coin whose symbol has that
/// CoinGecko id, and a price came back for the id; and every loaded coin
/// with a priced id gets its snapshot.
pub proof fn lemma_snapshot_targets(symbols: Seq<Seq<char>>, priced: Seq<Seq<char>>)
    ensures
        forall|k: int| 0 <= k < spec_snapshot_targets(symbols, priced).len() ==> {
            let t = #[trigger] spec_snapshot_targets(symbols, priced)[k];
            &&& 0 <= t.0 < symbols.len()
            &&& spec_symbol_id(symbols[t.0]) == Some(t.1)
            &&& priced.contains(t.1)
        },
        forall|i: int| 0 <= i < symbols.len() && (#[trigger] spec_symbol_id(symbols[i])) is Some
            && priced.contains(spec_symbol_id(symbols[i])->0)
            ==> spec_snapshot_targets(symbols, priced).contains((i, spec_symbol_id(symbols[i])->0)),
    decreases symbols.len(),
{
    if symbols.len() > 0 {
        let p = symbols.drop_last();
        lemma_snapshot_targets(p, priced);
        let r = spec_snapshot_targets(p, priced);
        let all = spec_snapshot_targets(symbols, priced);
        assert forall|k: int| 0 <= k < all.len() implies {
            let t = #[trigger] all[k];
            &&& 0 <= t.0 < symbols.len()
            &&& spec_symbol_id(symbols[t.0]) == Some(t.1)
            &&& priced.contains(t.1)
        } by {
            if k < r.len() {
                assert(all[k] == r[k]);
                assert(symbols[r[k].0] == p[r[k].0]);
            }
        }
        assert forall|i: int| 0 <= i < symbols.len() && (#[trigger] spec_symbol_id(symbols[i])) is Some
            && priced.contains(spec_symbol_id(symbols[i])->0)
            implies all.contains((i, spec_symbol_id(symbols[i])->0)) by {
            if i < symbols.len() - 1 {
                assert(symbols[i] == p[i]);
                assert(spec_symbol_id(p[i]) is Some);
                assert(r.contains((i, spec_symbol_id(p[i])->0)));
                let j = choose|j: int| 0 <= j < r.len() && r[j] == (i, spec_symbol_id(p[i])->0);
                assert(all[j] == r[j]);
            } else {
                assert(all[all.len() - 1] == (i, spec_symbol_id(symbols[i])->0));
            }
        }
    }
}


/// The pause after a failed attempt to load the coins, in seconds.
pub const LOAD_RETRY_SECS: u64 = 10;

/// The pause when no coin is stored yet, in seconds.
pub const EMPTY_RETRY_SECS: u64 = 30;

/// The pause after a failed attempt to get a connection for saving, in seconds.
pub const CONNECT_RETRY_SECS: u64 = 5;

/// The pause at the end of each cycle, fetch failed or not, in seconds.
pub const CYCLE_PAUSE_SECS: u64 = 60;

/// What the aggregator waits for.
#[derive(Debug, Clone, Copy, PartialEq, Eq, Structural)]
pub enum AggregatorPhase {
    /// The default coins being created.
    Initializing,
    /// The stored coins being loaded.
    LoadingCoins,
    /// Their prices being fetched.
    FetchingPrices,
    /// A connection for saving being obtained.
    Connecting,
    /// Snapshots being stored.
    Saving,
    /// A pause.
    Pausing,
    /// Stopped for good: the coins could not be created.
    Stopped,
}

/// What the caller is to do next.
pub enum AggregatorAction {
    /// Create the default coins that are missing.
    InitCoins,
    /// Load the symbol of every stored coin (with its id, kept by the caller).
    LoadCoins,
    /// Fetch the prices of these symbols from CoinGecko.
    FetchPrices(Vec<String>),
    /// Get a connection to store snapshots with.
    Connect,
    /// Store these snapshots (each insert that fails is only reported).
    SaveSnapshots(Vec<SnapshotTarget>),
    /// Pause for this many seconds.
    Sleep(u64),
    /// Stop the aggregator.
    Stop,
}

/// What became of the last action.
pub enum AggregatorEvent {
    CoinsInitialized,
    InitFailed,
    /// The stored coins' symbols, in load order.
    CoinsLoaded(Vec<String>),
    LoadFailed,
    /// The CoinGecko ids that a price came back for.
    PricesFetched(Vec<String>),
    FetchFailed,
    Connected,
    ConnectFailed,
    /// The snapshots were stored; so many inserts succeeded.
    SnapshotsSaved(usize),
    Slept,
}

/// The mathematical content of an action.
pub enum ActionView {
    InitCoins,
    LoadCoins,
    FetchPrices(Seq<Seq<char>>),
    Connect,
    SaveSnapshots(Seq<(int, Seq<char>)>),
    Sleep(u64),
    Stop,
}

/// The mathematical content of an event.
pub enum EventView {
    CoinsInitialized,
    InitFailed,
    CoinsLoaded(Seq<Seq<char>>),
    LoadFailed,
    PricesFetched(Seq<Seq<char>>),
    FetchFailed,
    Connected,
    ConnectFailed,
    SnapshotsSaved(nat),
    Slept,
}

impl View for AggregatorAction {
    type V = ActionView;

    open spec fn view(&self) -> ActionView {
        match self {
            AggregatorAction::InitCoins => ActionView::InitCoins,
            AggregatorAction::LoadCoins => ActionView::LoadCoins,
            AggregatorAction::FetchPrices(s) => ActionView::FetchPrices(string_views(s@)),
            AggregatorAction::Connect => ActionView::Connect,
            AggregatorAction::SaveSnapshots(t) => ActionView::SaveSnapshots(target_views(t@)),
            AggregatorAction::Sleep(n) => ActionView::Sleep(*n),
            AggregatorAction::Stop => ActionView::Stop,
        }
    }
}

impl View for AggregatorEvent {
    type V = EventView;

    open spec fn view(&self) -> EventView {
        match self {
            AggregatorEvent::CoinsInitialized => EventView::CoinsInitialized,
            AggregatorEvent::InitFailed => EventView::InitFailed,
            AggregatorEvent::CoinsLoaded(s) => EventView::CoinsLoaded(string_views(s@)),
            AggregatorEvent::LoadFailed => EventView::LoadFailed,
            AggregatorEvent::PricesFetched(s) => EventView::PricesFetched(string_views(s@)),
            AggregatorEvent::FetchFailed => EventView::FetchFailed,
            AggregatorEvent::Connected => EventView::Connected,
            AggregatorEvent::ConnectFailed => EventView::ConnectFailed,
            AggregatorEvent::SnapshotsSaved(n) => EventView::SnapshotsSaved(*n as nat),
            AggregatorEvent::Slept => EventView::Slept,
        }
    }
}

/// The state of the aggregator: what it waits for, the symbols of the
/// current cycle and the ids priced in it.
pub struct AggregatorView {
    pub phase: AggregatorPhase,
    pub symbols: Seq<Seq<char>>,
    pub priced: Seq<Seq<char>>,
}

/// Does `e` answer the action that the aggregator in `phase` waits on?
pub open spec fn answers(phase: AggregatorPhase, e: EventView) -> bool {
    match phase {
        AggregatorPhase::Initializing => e is CoinsInitialized || e is InitFailed,
        AggregatorPhase::LoadingCoins => e is CoinsLoaded || e is LoadFailed,
        AggregatorPhase::FetchingPrices => e is PricesFetched || e is FetchFailed,
        AggregatorPhase::Connecting => e is Connected || e is ConnectFailed,
        AggregatorPhase::Saving => e is SnapshotsSaved,
        AggregatorPhase::Pausing => e is Slept,
        AggregatorPhase::Stopped => false,
    }
}

/// A state of the aggregator, with no symbols and no prices held.
pub open spec fn bare(phase: AggregatorPhase) -> AggregatorView {
    AggregatorView { phase, symbols: Seq::<Seq<char>>::empty(), priced: Seq::<Seq<char>>::empty() }
}

/// The aggregator's decision on event `e` in state `s`: the next state and
/// the next action.
pub open spec fn spec_step(s: AggregatorView, e: EventView) -> (AggregatorView, ActionView) {
    match e {
        EventView::CoinsInitialized => (bare(AggregatorPhase::LoadingCoins), ActionView::LoadCoins),
        EventView::InitFailed => (bare(AggregatorPhase::Stopped), ActionView::Stop),
        EventView::LoadFailed => (bare(AggregatorPhase::Pausing), ActionView::Sleep(LOAD_RETRY_SECS)),
        EventView::CoinsLoaded(symbols) => if symbols.len() == 0 {
            (bare(AggregatorPhase::Pausing), ActionView::Sleep(EMPTY_RETRY_SECS))
        } else {
            (
                AggregatorView { phase: AggregatorPhase::FetchingPrices, symbols, priced: Seq::<Seq<char>>::empty() },
                ActionView::FetchPrices(symbols),
            )
        },
        EventView::FetchFailed => (bare(AggregatorPhase::Pausing), ActionView::Sleep(CYCLE_PAUSE_SECS)),
        EventView::PricesFetched(priced) => (
            AggregatorView { phase: AggregatorPhase::Connecting, symbols: s.symbols, priced },
            ActionView::Connect,
        ),
        EventView::ConnectFailed => (bare(AggregatorPhase::Pausing), ActionView::Sleep(CONNECT_RETRY_SECS)),
        EventView::Connected => (
            AggregatorView { phase: AggregatorPhase::Saving, symbols: s.symbols, priced: s.priced },
            ActionView::SaveSnapshots(spec_snapshot_targets(s.symbols, s.priced)),
        ),
        EventView::SnapshotsSaved(_) => (bare(AggregatorPhase::Pausing), ActionView::Sleep(CYCLE_PAUSE_SECS)),
        EventView::Slept => (bare(AggregatorPhase::LoadingCoins), ActionView::LoadCoins),
    }
}

/// The decision logic of the price aggregator.
pub struct Aggregator {
    phase: AggregatorPhase,
    symbols: Vec<String>,
    priced: Vec<String>,
}

impl View for Aggregator {
    type V = AggregatorView;

    closed spec fn view(&self) -> AggregatorView {
        AggregatorView {
            phase: self.phase,
            symbols: string_views(self.symbols@),
            priced: string_views(self.priced@),
        }
    }
}

impl Aggregator {
    /// A new aggregator and its first action: creating the default coins.
    pub fn start() -> (r: (Aggregator, AggregatorAction))
        ensures
            r.0@ == bare(AggregatorPhase::Initializing),
            r.1@ == ActionView::InitCoins,
    {
        let a = Aggregator { phase: AggregatorPhase::Initializing, symbols: Vec::new(), priced: Vec::new() };
        assert(string_views(a.symbols@) =~= Seq::<Seq<char>>::empty());
        assert(string_views(a.priced@) =~= Seq::<Seq<char>>::empty());
        assert(a@ =~= bare(AggregatorPhase::Initializing));
        (a, AggregatorAction::InitCoins)
    }

    /// What the aggregator waits for.
    pub fn phase(&self) -> (p: AggregatorPhase)
        ensures
            p == self@.phase,
    {
        self.phase
    }

    /// Takes in what became of the last action and gives the next one (see
    /// `spec_step`).
    pub fn on_event(&mut self, event: AggregatorEvent) -> (action: AggregatorAction)
        requires
            answers(old(self)@.phase, event@),
        ensures
            (final(self)@, action@) == spec_step(old(self)@, event@),
    {
        match event {
            AggregatorEvent::CoinsInitialized => {
                self.reset(AggregatorPhase::LoadingCoins);
                AggregatorAction::LoadCoins
            },
            AggregatorEvent::InitFailed => {
                self.reset(AggregatorPhase::Stopped);
                AggregatorAction::Stop
            },
            AggregatorEvent::LoadFailed => {
                self.reset(AggregatorPhase::Pausing);
                AggregatorAction::Sleep(LOAD_RETRY_SECS)
            },
            AggregatorEvent::CoinsLoaded(symbols) => {
                if symbols.len() == 0 {
                    self.reset(AggregatorPhase::Pausing);
                    AggregatorAction::Sleep(EMPTY_RETRY_SECS)
                } else {
                    self.phase = AggregatorPhase::FetchingPrices;
                    self.symbols = symbols.clone();
                    self.priced = Vec::new();
                    proof {
                        assert(string_views(self.priced@) =~= Seq::<Seq<char>>::empty());
                        assert(string_views(self.symbols@) =~= string_views(symbols@));
                    }
                    AggregatorAction::FetchPrices(symbols)
                }
            },
            AggregatorEvent::FetchFailed => {
                self.reset(AggregatorPhase::Pausing);
                AggregatorAction::Sleep(CYCLE_PAUSE_SECS)
            },
            AggregatorEvent::PricesFetched(priced) => {
                self.phase = AggregatorPhase::Connecting;
                self.priced = priced;
                AggregatorAction::Connect
            },
            AggregatorEvent::ConnectFailed => {
                self.reset(AggregatorPhase::Pausing);
                AggregatorAction::Sleep(CONNECT_RETRY_SECS)
            },
            AggregatorEvent::Connected => {
                self.phase = AggregatorPhase::Saving;
                let targets = snapshot_targets(&self.symbols, &self.priced);
                AggregatorAction::SaveSnapshots(targets)
            },
            AggregatorEvent::SnapshotsSaved(_) => {
                self.reset(AggregatorPhase::Pausing);
                AggregatorAction::Sleep(CYCLE_PAUSE_SECS)
            },
            AggregatorEvent::Slept => {
                self.reset(AggregatorPhase::LoadingCoins);
                AggregatorAction::LoadCoins
            },
        }
    }

    fn reset(&mut self, phase: AggregatorPhase)
        ensures
            final(self)@ == bare(phase),
    {
        self.phase = phase;
        self.symbols = Vec::new();
        self.priced = Vec::new();
        assert(string_views(self.symbols@) =~= Seq::<Seq<char>>::empty());
        assert(string_views(self.priced@) =~= Seq::<Seq<char>>::empty());
        assert(self@ =~= bare(phase));
    }
}

/// The phase that waits for the answer to `a`.
pub open spec fn phase_for(a: ActionView) -> AggregatorPhase {
    match a {
        ActionView::InitCoins => AggregatorPhase::Initializing,
        ActionView::LoadCoins => AggregatorPhase::LoadingCoins,
        ActionView::FetchPrices(_) => AggregatorPhase::FetchingPrices,
        ActionView::Connect => AggregatorPhase::Connecting,
        ActionView::SaveSnapshots(_) => AggregatorPhase::Saving,
        ActionView::Sleep(_) => AggregatorPhase::Pausing,
        ActionView::Stop => AggregatorPhase::Stopped,
    }
}

/// The aggregator always waits for the answer to the action it last gave:
/// after each step its phase is the one that the new action calls for.
pub proof fn lemma_step_awaits_its_action(s: AggregatorView, e: EventView)
    requires
        answers(s.phase, e),
    ensures
        spec_step(s, e).0.phase == phase_for(spec_step(s, e).1),
{
}

/// Once the coins exist, the aggregator runs for ever: the only step that
/// stops it is a failed creation of the coins.
pub proof fn lemma_stops_only_when_init_fails(s: AggregatorView, e: EventView)
    requires
        answers(s.phase, e),
    ensures
        spec_step(s, e).1 is Stop <==> e is InitFailed,
        s.phase != AggregatorPhase::Initializing ==> !(spec_step(s, e).1 is Stop),
{
}

/// A failed step is never retried at once: after a failure to load the
/// coins, to fetch the prices or to connect, and when no coin is stored,
/// the aggregator pauses for a positive time and then starts the cycle over
/// by loading the coins.
pub proof fn lemma_failures_pause(s: AggregatorView, e: EventView)
    requires
        answers(s.phase, e),
        e is LoadFailed || e is FetchFailed || e is ConnectFailed || (e matches EventView::CoinsLoaded(l)
            && l.len() == 0),
    ensures
        spec_step(s, e).1 matches ActionView::Sleep(n) && n > 0,
        spec_step(spec_step(s, e).0, EventView::Slept).1 is LoadCoins,
{
}

/// Each cycle that stores snapshots ends with the full pause, and stores
/// them only once a connection was had, for the coins loaded and the ids
/// priced in that cycle.
pub proof fn lemma_saving_cycle(s: AggregatorView, e: EventView)
    requires
        answers(s.phase, e),
    ensures
        e is Connected ==> spec_step(s, e).1 == ActionView::SaveSnapshots(spec_snapshot_targets(s.symbols, s.priced)),
        e is SnapshotsSaved ==> spec_step(s, e).1 == ActionView::Sleep(CYCLE_PAUSE_SECS),
        spec_step(s, e).1 is SaveSnapshots ==> e is Connected,
{
}

/// A cycle stores each snapshot for the coin as loaded in that very cycle:
/// after the coins `loaded` (some) are loaded, the prices of the ids `priced`
/// come back and a connection is had, the aggregator asks for the prices of
/// exactly the loaded symbols, and then stores a snapshot for position `c`
/// with id `g` only where the `c`-th loaded symbol has CoinGecko id `g` and a
/// price came back for `g`; every such loaded coin gets its snapshot.
pub proof fn lemma_cycle_targets_loaded_coins(
    s: AggregatorView,
    loaded: Seq<Seq<char>>,
    priced: Seq<Seq<char>>,
)
    requires
        s.phase == AggregatorPhase::LoadingCoins,
        loaded.len() > 0,
    ensures
        ({
            let (s1, a1) = spec_step(s, EventView::CoinsLoaded(loaded));
            let (s2, a2) = spec_step(s1, EventView::PricesFetched(priced));
            let (s3, a3) = spec_step(s2, EventView::Connected);
            &&& a1 == ActionView::FetchPrices(loaded)
            &&& a2 is Connect
            &&& a3 matches ActionView::SaveSnapshots(targets) && {
                &&& forall|k: int| 0 <= k < targets.len() ==> {
                    let t = #[trigger] targets[k];
                    &&& 0 <= t.0 < loaded.len()
                    &&& spec_symbol_id(loaded[t.0]) == Some(t.1)
                    &&& priced.contains(t.1)
                }
                &&& forall|i: int| 0 <= i < loaded.len() && (#[trigger] spec_symbol_id(loaded[i])) is Some
                    && priced.contains(spec_symbol_id(loaded[i])->0)
                    ==> targets.contains((i, spec_symbol_id(loaded[i])->0))
            }
        }),
{
    let (s1, a1) = spec_step(s, EventView::CoinsLoaded(loaded));
    let (s2, a2) = spec_step(s1, EventView::PricesFetched(priced));
    assert(s2.symbols == loaded && s2.priced == priced);
    lemma_snapshot_targets(loaded, priced);
}
} // verus!
