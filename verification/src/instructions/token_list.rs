//! The token allow-list: a chain of pages, each with room for `MAX_TOKENS`
//! symbols. The pages are handed over in link order; the page that no other
//! follows is the last one.
//!
//! A symbol is added to the first page with room, and only if no page of the
//! chain holds it already. A symbol is removed from the first page that
//! holds it, and only while the program is paused.
use vstd::prelude::*;
use crate::access::{require_admin, require_paused};
use crate::consts::{MAX_TOKENS, NATIVE_SYMBOL};
use crate::errors::{BridgeError, PortfolioError, TokenListError};
use crate::events::ParameterUpdatedEvent;
use crate::records::{same_bytes, Records};
use crate::state::{Admin, GlobalConfig, TokenDetails, TokenList, TokenListView};

verus! {

/// Tells whether `symbol` stands on some page of the chain.
pub open spec fn listed(pages: Seq<TokenListView>, symbol: [u8; 32]) -> bool {
    exists|i: int| 0 <= i < pages.len() && #[trigger] pages[i].tokens.contains(symbol)
}

/// Tells whether the page can take one more symbol.
pub open spec fn has_room(page: TokenListView) -> bool {
    page.tokens.len() < MAX_TOKENS
}

/// The first page at or after `from` that has room; the number of pages if
/// there is none.
pub open spec fn first_with_room(pages: Seq<TokenListView>, from: int) -> int
    decreases pages.len() - from,
{
    if from < 0 || from >= pages.len() {
        pages.len() as int
    } else if has_room(pages[from]) {
        from
    } else {
        first_with_room(pages, from + 1)
    }
}

/// The first page at or after `from` that holds `symbol`; the number of pages
/// if there is none.
pub open spec fn first_holding(pages: Seq<TokenListView>, symbol: [u8; 32], from: int) -> int
    decreases pages.len() - from,
{
    if from < 0 || from >= pages.len() {
        pages.len() as int
    } else if pages[from].tokens.contains(symbol) {
        from
    } else {
        first_holding(pages, symbol, from + 1)
    }
}

/// The page with `symbol` added at its end.
pub open spec fn page_with(page: TokenListView, symbol: [u8; 32]) -> TokenListView {
    TokenListView { next_page: page.next_page, tokens: page.tokens.push(symbol) }
}

/// The page with every occurrence of `symbol` taken out; the other symbols
/// keep their order.
pub open spec fn page_without(page: TokenListView, symbol: [u8; 32]) -> TokenListView {
    TokenListView {
        next_page: page.next_page,
        tokens: page.tokens.filter(other_than(symbol)),
    }
}

/// The test that every 32-byte value but `symbol` passes.
pub open spec fn other_than(symbol: [u8; 32]) -> spec_fn([u8; 32]) -> bool {
    |t: [u8; 32]| t != symbol
}

/// What adding `symbol` does to a chain: the chain afterwards, or the reason
/// why nothing is added.
pub open spec fn add_outcome(pages: Seq<TokenListView>, symbol: [u8; 32]) -> Result<
    Seq<TokenListView>,
    BridgeError,
> {
    let at = first_with_room(pages, 0);
    if pages.len() == 0 {
        Err(BridgeError::Portfolio(PortfolioError::AccountsNotProvided))
    } else if listed(pages, symbol) {
        Err(BridgeError::TokenList(TokenListError::TokenAlreadyAdded))
    } else if at == pages.len() {
        Err(BridgeError::TokenList(TokenListError::TokenListFull))
    } else {
        Ok(pages.update(at, page_with(pages[at], symbol)))
    }
}

/// What removing `symbol` does to a chain: the chain afterwards, or the
/// reason why nothing is removed.
pub open spec fn remove_outcome(pages: Seq<TokenListView>, symbol: [u8; 32]) -> Result<
    Seq<TokenListView>,
    BridgeError,
> {
    let at = first_holding(pages, symbol, 0);
    if pages.len() == 0 {
        Err(BridgeError::Portfolio(PortfolioError::AccountsNotProvided))
    } else if at == pages.len() {
        Err(BridgeError::TokenList(TokenListError::TokenNotFound))
    } else {
        Ok(pages.update(at, page_without(pages[at], symbol)))
    }
}

/// Tells whether the page holds `symbol`.
fn page_holds(page: &TokenList, symbol: &[u8; 32]) -> (holds: bool)
    ensures
        holds == page@.tokens.contains(*symbol),
{
    let mut i: usize = 0;
    while i < page.tokens.len()
        invariant
            i <= page.tokens.len(),
            forall|j: int| 0 <= j < i ==> page.tokens[j] != *symbol,
        decreases page.tokens.len() - i,
    {
        if same_bytes(&page.tokens[i], symbol) {
            return true;
        }
        i += 1;
    }
    false
}

proof fn lemma_first_holding(pages: Seq<TokenListView>, symbol: [u8; 32], from: int)
    requires
        0 <= from <= pages.len(),
    ensures
        from <= first_holding(pages, symbol, from) <= pages.len(),
        first_holding(pages, symbol, from) < pages.len() ==> pages[first_holding(
            pages,
            symbol,
            from,
        )].tokens.contains(symbol),
        forall|i: int|
            from <= i < first_holding(pages, symbol, from) ==> !(#[trigger] pages[i]).tokens.contains(
                symbol,
            ),
    decreases pages.len() - from,
{
    if from < pages.len() && !pages[from].tokens.contains(symbol) {
        lemma_first_holding(pages, symbol, from + 1);
    }
}

proof fn lemma_first_with_room(pages: Seq<TokenListView>, from: int)
    requires
        0 <= from <= pages.len(),
    ensures
        from <= first_with_room(pages, from) <= pages.len(),
        first_with_room(pages, from) < pages.len() ==> has_room(
            pages[first_with_room(pages, from)],
        ),
        forall|i: int| from <= i < first_with_room(pages, from) ==> !has_room(#[trigger] pages[i]),
    decreases pages.len() - from,
{
    if from < pages.len() && !has_room(pages[from]) {
        lemma_first_with_room(pages, from + 1);
    }
}

/// The first page that holds `symbol`, if one does.
fn find_holding(pages: &Vec<TokenList>, symbol: &[u8; 32]) -> (at: usize)
    ensures
        at == first_holding(pages.deep_view(), *symbol, 0),
        at <= pages.len(),
        (at < pages.len()) == listed(pages.deep_view(), *symbol),
{
    let ghost view = pages.deep_view();
    let mut i: usize = 0;
    while i < pages.len()
        invariant
            i <= pages.len(),
            view == pages.deep_view(),
            first_holding(view, *symbol, 0) == first_holding(view, *symbol, i as int),
            forall|j: int| 0 <= j < i ==> !(#[trigger] view[j]).tokens.contains(*symbol),
        decreases pages.len() - i,
    {
        if page_holds(&pages[i], symbol) {
            assert(view[i as int] == pages[i as int]@);
            assert(view[i as int].tokens.contains(*symbol));
            return i;
        }
        assert(view[i as int] == pages[i as int]@);
        i += 1;
    }
    i
}

/// Adds `symbol` at the end of one page, or fails with `PageFull` and
/// changes nothing where the page holds `MAX_TOKENS` symbols already.
pub fn add_to_page(page: &mut TokenList, symbol: [u8; 32]) -> (result: Result<(), PortfolioError>)
    ensures
        has_room(old(page)@) ==> result is Ok && final(page)@ == page_with(old(page)@, symbol),
        !has_room(old(page)@) ==> result == Err::<(), PortfolioError>(PortfolioError::PageFull)
            && final(page)@ == old(page)@,
{
    if page.tokens.len() < MAX_TOKENS {
        page.tokens.push(symbol);
        Ok(())
    } else {
        Err(PortfolioError::PageFull)
    }
}

/// The record kept for a token that `add_token` lists.
pub open spec fn details_of(symbol: [u8; 32], token_address: Option<[u8; 32]>, decimals: u8)
    -> TokenDetails {
    TokenDetails { decimals, symbol, token_address }
}

/// Tells whether `event` reports that the parameter `name` of `pair` went from
/// `old_value` to `new_value`.
pub open spec fn reports(
    event: ParameterUpdatedEvent,
    pair: [u8; 32],
    name: Seq<char>,
    old_value: u64,
    new_value: u64,
) -> bool {
    &&& event.pair == pair
    &&& event.parameter@ == name
    &&& event.old_value == old_value
    &&& event.new_value == new_value
}

/// Adds `symbol` to the allow-list and creates its details record.
///
/// Only an admin may do so. The symbol goes to the end of the first page
/// with room. Nothing is added, and no record changes, where the caller is
/// no admin (`Unauthorized`), where no page was handed over
/// (`AccountsNotProvided`), where some page holds the symbol already
/// (`TokenAlreadyAdded`), or where every page is full (`TokenListFull`).
pub fn add_token(
    admins: &Records<Admin>,
    caller: &[u8; 32],
    pages: &mut Vec<TokenList>,
    details: &mut Records<TokenDetails>,
    symbol: [u8; 32],
    token_address: Option<[u8; 32]>,
    decimals: u8,
) -> (result: Result<ParameterUpdatedEvent, BridgeError>)
    ensures
        !admins@.contains_key(*caller) <==> result == Err::<ParameterUpdatedEvent, BridgeError>(
            BridgeError::Portfolio(PortfolioError::Unauthorized),
        ),
        admins@.contains_key(*caller) ==> match add_outcome(old(pages).deep_view(), symbol) {
            Ok(after) => {
                &&& result is Ok
                &&& reports(result->Ok_0, symbol, "P-ADDTOKEN"@, 0, 1)
                &&& final(pages).deep_view() == after
                &&& final(details)@ == old(details)@.insert(
                    symbol,
                    details_of(symbol, token_address, decimals),
                )
            },
            Err(e) => result == Err::<ParameterUpdatedEvent, BridgeError>(e),
        },
        result is Err ==> final(pages).deep_view() == old(pages).deep_view() && final(details)@
            == old(details)@,
{
    match require_admin(admins, caller) {
        Ok(()) => {},
        Err(e) => {
            return Err(BridgeError::Portfolio(e));
        },
    }
    if pages.len() == 0 {
        return Err(BridgeError::Portfolio(PortfolioError::AccountsNotProvided));
    }
    if find_holding(pages, &symbol) < pages.len() {
        return Err(BridgeError::TokenList(TokenListError::TokenAlreadyAdded));
    }
    let ghost before = pages.deep_view();
    let mut at: usize = 0;
    while at < pages.len()
        invariant
            at <= pages.len(),
            admins@.contains_key(*caller),
            before == old(pages).deep_view(),
            before.len() > 0,
            !listed(before, symbol),
            pages.deep_view() == before,
            *details == *old(details),
            first_with_room(before, 0) == first_with_room(before, at as int),
        decreases pages.len() - at,
    {
        assert(before[at as int] == pages[at as int]@);
        match add_to_page(&mut pages[at], symbol) {
            Ok(()) => {
                assert(pages.deep_view() =~= before.update(
                    at as int,
                    page_with(before[at as int], symbol),
                ));
                details.insert(symbol, TokenDetails { decimals, symbol, token_address });
                return Ok(
                    ParameterUpdatedEvent {
                        pair: symbol,
                        parameter: "P-ADDTOKEN".to_owned(),
                        old_value: 0,
                        new_value: 1,
                    },
                );
            },
            Err(_) => {
                assert(pages.deep_view() =~= before);
            },
        }
        at += 1;
    }
    Err(BridgeError::TokenList(TokenListError::TokenListFull))
}

/// Adds the chain's native currency to the allow-list: `NATIVE_SYMBOL`, with
/// nine decimals and no mint. It succeeds and fails as `add_token` does.
pub fn add_native_token(
    admins: &Records<Admin>,
    caller: &[u8; 32],
    pages: &mut Vec<TokenList>,
    details: &mut Records<TokenDetails>,
) -> (result: Result<ParameterUpdatedEvent, BridgeError>)
    ensures
        !admins@.contains_key(*caller) <==> result == Err::<ParameterUpdatedEvent, BridgeError>(
            BridgeError::Portfolio(PortfolioError::Unauthorized),
        ),
        admins@.contains_key(*caller) ==> match add_outcome(
            old(pages).deep_view(),
            NATIVE_SYMBOL,
        ) {
            Ok(after) => {
                &&& result is Ok
                &&& reports(result->Ok_0, NATIVE_SYMBOL, "P-ADDTOKEN"@, 0, 1)
                &&& final(pages).deep_view() == after
                &&& final(details)@ == old(details)@.insert(
                    NATIVE_SYMBOL,
                    details_of(NATIVE_SYMBOL, None, 9),
                )
            },
            Err(e) => result == Err::<ParameterUpdatedEvent, BridgeError>(e),
        },
        result is Err ==> final(pages).deep_view() == old(pages).deep_view() && final(details)@
            == old(details)@,
{
    add_token(admins, caller, pages, details, NATIVE_SYMBOL, None, 9)
}

/// The symbols of `tokens` other than `symbol`, in their order.
fn without(tokens: &Vec<[u8; 32]>, symbol: &[u8; 32]) -> (kept: Vec<[u8; 32]>)
    ensures
        kept@ == tokens@.filter(other_than(*symbol)),
{
    let mut kept: Vec<[u8; 32]> = Vec::new();
    let mut i: usize = 0;
    proof {
        reveal(Seq::filter);
        assert(tokens@.subrange(0, 0) =~= Seq::<[u8; 32]>::empty());
    }
    while i < tokens.len()
        invariant
            i <= tokens.len(),
            kept@ == tokens@.subrange(0, i as int).filter(other_than(*symbol)),
        decreases tokens.len() - i,
    {
        proof {
            reveal(Seq::filter);
            let next = tokens@.subrange(0, i + 1);
            assert(next.drop_last() =~= tokens@.subrange(0, i as int));
            assert(next.last() == tokens[i as int]);
        }
        if !same_bytes(&tokens[i], symbol) {
            kept.push(tokens[i]);
        }
        i += 1;
    }
    assert(tokens@.subrange(0, tokens.len() as int) =~= tokens@);
    kept
}

/// Removes `symbol` from the allow-list and closes its details record.
///
/// Only an admin may do so, and only while the program is paused. The symbol
/// leaves the first page that holds it. Nothing is removed, and no record
/// changes, where the caller is no admin (`Unauthorized`), where the program
/// is not paused (`ProgramNotPaused`), where no page was handed over
/// (`AccountsNotProvided`), or where no page holds the symbol
/// (`TokenNotFound`).
pub fn remove_token(
    admins: &Records<Admin>,
    caller: &[u8; 32],
    global_config: &GlobalConfig,
    pages: &mut Vec<TokenList>,
    details: &mut Records<TokenDetails>,
    symbol: [u8; 32],
) -> (result: Result<ParameterUpdatedEvent, BridgeError>)
    ensures
        !admins@.contains_key(*caller) <==> result == Err::<ParameterUpdatedEvent, BridgeError>(
            BridgeError::Portfolio(PortfolioError::Unauthorized),
        ),
        admins@.contains_key(*caller) ==> (!global_config.program_paused <==> result == Err::<
            ParameterUpdatedEvent,
            BridgeError,
        >(BridgeError::Portfolio(PortfolioError::ProgramNotPaused))),
        admins@.contains_key(*caller) && global_config.program_paused ==> match remove_outcome(
            old(pages).deep_view(),
            symbol,
        ) {
            Ok(after) => {
                &&& result is Ok
                &&& reports(result->Ok_0, symbol, "P-REMOVETOKEN"@, 1, 0)
                &&& final(pages).deep_view() == after
                &&& final(details)@ == old(details)@.remove(symbol)
            },
            Err(e) => result == Err::<ParameterUpdatedEvent, BridgeError>(e),
        },
        result is Err ==> final(pages).deep_view() == old(pages).deep_view() && final(details)@
            == old(details)@,
{
    match require_admin(admins, caller) {
        Ok(()) => {},
        Err(e) => {
            return Err(BridgeError::Portfolio(e));
        },
    }
    match require_paused(global_config) {
        Ok(()) => {},
        Err(e) => {
            return Err(BridgeError::Portfolio(e));
        },
    }
    if pages.len() == 0 {
        return Err(BridgeError::Portfolio(PortfolioError::AccountsNotProvided));
    }
    let at = find_holding(pages, &symbol);
    if at == pages.len() {
        return Err(BridgeError::TokenList(TokenListError::TokenNotFound));
    }
    let ghost before = pages.deep_view();
    let kept = without(&pages[at].tokens, &symbol);
    pages[at].tokens = kept;
    assert(pages.deep_view() =~= before.update(at as int, page_without(before[at as int], symbol)));
    details.remove(&symbol);
    Ok(
        ParameterUpdatedEvent {
            pair: symbol,
            parameter: "P-REMOVETOKEN".to_owned(),
            old_value: 1,
            new_value: 0,
        },
    )
}

/// A chain as the operations keep it: no page holds more than `MAX_TOKENS`
/// symbols, every page but the last points to a next page, and no symbol
/// stands twice anywhere on the chain.
pub open spec fn well_formed(pages: Seq<TokenListView>) -> bool {
    &&& forall|i: int| 0 <= i < pages.len() ==> (#[trigger] pages[i]).tokens.len() <= MAX_TOKENS
    &&& forall|i: int|
        0 <= i < pages.len() ==> ((#[trigger] pages[i]).next_page is Some <==> i + 1 < pages.len())
    &&& forall|i: int, a: int, j: int, b: int|
        #![trigger pages[i].tokens[a], pages[j].tokens[b]]
        0 <= i < pages.len() && 0 <= a < pages[i].tokens.len() && 0 <= j < pages.len() && 0 <= b
            < pages[j].tokens.len() && (i != j || a != b) ==> pages[i].tokens[a]
            != pages[j].tokens[b]
}

/// A symbol that was added cannot be added again: the second attempt fails
/// with `TokenAlreadyAdded`, whichever page the symbol went to.
pub proof fn lemma_second_add_is_refused(pages: Seq<TokenListView>, symbol: [u8; 32])
    requires
        add_outcome(pages, symbol) is Ok,
    ensures
        add_outcome(add_outcome(pages, symbol)->Ok_0, symbol) == Err::<
            Seq<TokenListView>,
            BridgeError,
        >(BridgeError::TokenList(TokenListError::TokenAlreadyAdded)),
{
    let at = first_with_room(pages, 0);
    let after = add_outcome(pages, symbol)->Ok_0;
    lemma_first_with_room(pages, 0);
    let grown = after[at].tokens;
    assert(grown[grown.len() - 1] == symbol);
    assert(after[at].tokens.contains(symbol));
}

/// Adding a symbol keeps a well-formed chain well formed, and the symbol is
/// on the chain afterwards.
pub proof fn lemma_add_keeps_well_formed(pages: Seq<TokenListView>, symbol: [u8; 32])
    requires
        well_formed(pages),
        add_outcome(pages, symbol) is Ok,
    ensures
        well_formed(add_outcome(pages, symbol)->Ok_0),
        listed(add_outcome(pages, symbol)->Ok_0, symbol),
{
    let at = first_with_room(pages, 0);
    let after = add_outcome(pages, symbol)->Ok_0;
    lemma_first_with_room(pages, 0);
    let grown = after[at].tokens;
    assert(grown[grown.len() - 1] == symbol);
    assert(after[at].tokens.contains(symbol));
    assert forall|i: int, a: int, j: int, b: int|
        #![trigger after[i].tokens[a], after[j].tokens[b]]
        0 <= i < after.len() && 0 <= a < after[i].tokens.len() && 0 <= j < after.len() && 0 <= b
            < after[j].tokens.len() && (i != j || a != b) implies after[i].tokens[a]
        != after[j].tokens[b] by {
        let new_a = i == at && a == pages[at].tokens.len();
        let new_b = j == at && b == pages[at].tokens.len();
        if new_a && !new_b {
            assert(pages[j].tokens[b] == after[j].tokens[b]);
            assert(pages[j].tokens.contains(pages[j].tokens[b]));
        } else if new_b && !new_a {
            assert(pages[i].tokens[a] == after[i].tokens[a]);
            assert(pages[i].tokens.contains(pages[i].tokens[a]));
        } else if !new_a && !new_b {
            assert(pages[i].tokens[a] == after[i].tokens[a]);
            assert(pages[j].tokens[b] == after[j].tokens[b]);
        }
    }
    assert forall|i: int| 0 <= i < after.len() implies ((#[trigger] after[i]).next_page is Some
        <==> i + 1 < after.len()) by {
        assert(after[i].next_page == pages[i].next_page);
    }
    assert forall|i: int| 0 <= i < after.len() implies (#[trigger] after[i]).tokens.len()
        <= MAX_TOKENS by {
        assert(pages[i].tokens.len() <= MAX_TOKENS);
    }
}

proof fn lemma_filter_keeps_order(tokens: Seq<[u8; 32]>, symbol: [u8; 32])
    requires
        tokens.no_duplicates(),
    ensures
        tokens.filter(other_than(symbol)).no_duplicates(),
        !tokens.filter(other_than(symbol)).contains(symbol),
        forall|t: [u8; 32]| tokens.filter(other_than(symbol)).contains(t) ==> tokens.contains(t),
        tokens.filter(other_than(symbol)).len() <= tokens.len(),
    decreases tokens.len(),
{
    reveal(Seq::filter);
    let kept = tokens.filter(other_than(symbol));
    if tokens.len() > 0 {
        let rest = tokens.drop_last();
        let kept_rest = rest.filter(other_than(symbol));
        lemma_filter_keeps_order(rest, symbol);
        assert forall|t: [u8; 32]| kept_rest.contains(t) implies tokens.contains(t) by {
            assert(rest.contains(t));
            let i = choose|i: int| 0 <= i < rest.len() && rest[i] == t;
            assert(tokens[i] == t);
        }
        let last = tokens.last();
        assert(!rest.contains(last)) by {
            if rest.contains(last) {
                let i = choose|i: int| 0 <= i < rest.len() && rest[i] == last;
                assert(tokens[i] == tokens[tokens.len() - 1]);
            }
        }
        if other_than(symbol)(last) {
            assert(kept == kept_rest.push(last));
            assert forall|t: [u8; 32]| kept.contains(t) implies tokens.contains(t) by {
                let i = choose|i: int| 0 <= i < kept.len() && kept[i] == t;
                if i < kept_rest.len() {
                    assert(kept_rest[i] == t);
                    assert(kept_rest.contains(t));
                }
            }
            assert(!kept.contains(symbol)) by {
                if kept.contains(symbol) {
                    let i = choose|i: int| 0 <= i < kept.len() && kept[i] == symbol;
                    assert(kept_rest[i] == symbol);
                    assert(kept_rest.contains(symbol));
                }
            }
            assert forall|i: int, j: int| 0 <= i < kept.len() && 0 <= j < kept.len() && i
                != j implies kept[i] != kept[j] by {
                if i < kept_rest.len() && j < kept_rest.len() {
                } else if i < kept_rest.len() {
                    assert(kept_rest.contains(kept_rest[i]));
                } else {
                    assert(kept_rest.contains(kept_rest[j]));
                }
            }
        } else {
            assert(kept == kept_rest);
        }
    }
}

/// Removing a symbol keeps a well-formed chain well formed, and the symbol is
/// on no page afterwards.
pub proof fn lemma_remove_keeps_well_formed(pages: Seq<TokenListView>, symbol: [u8; 32])
    requires
        well_formed(pages),
        remove_outcome(pages, symbol) is Ok,
    ensures
        well_formed(remove_outcome(pages, symbol)->Ok_0),
        !listed(remove_outcome(pages, symbol)->Ok_0, symbol),
{
    let at = first_holding(pages, symbol, 0);
    let after = remove_outcome(pages, symbol)->Ok_0;
    lemma_first_holding(pages, symbol, 0);
    let before_page = pages[at].tokens;
    assert(before_page.no_duplicates()) by {
        assert forall|a: int, b: int|
            0 <= a < before_page.len() && 0 <= b < before_page.len() && a != b implies before_page[a]
            != before_page[b] by {
            assert(pages[at].tokens[a] != pages[at].tokens[b]);
        }
    }
    lemma_filter_keeps_order(before_page, symbol);
    let kept = after[at].tokens;
    assert(kept == before_page.filter(other_than(symbol)));
    let hit = choose|k: int| 0 <= k < before_page.len() && before_page[k] == symbol;
    assert forall|i: int, a: int| 0 <= i < after.len() && 0 <= a < after[i].tokens.len() implies (
    #[trigger] after[i].tokens[a]) != symbol && pages[i].tokens.contains(after[i].tokens[a]) by {
        if i == at {
            assert(kept.contains(kept[a]));
        } else {
            assert(pages[i].tokens[a] == after[i].tokens[a]);
            assert(pages[i].tokens[a] != pages[at].tokens[hit]);
        }
    }
    assert(!listed(after, symbol)) by {
        if listed(after, symbol) {
            let i = choose|i: int| 0 <= i < after.len() && #[trigger] after[i].tokens.contains(symbol);
            let a = choose|a: int| 0 <= a < after[i].tokens.len() && after[i].tokens[a] == symbol;
            assert(after[i].tokens[a] != symbol);
        }
    }
    assert forall|i: int, a: int, j: int, b: int|
        #![trigger after[i].tokens[a], after[j].tokens[b]]
        0 <= i < after.len() && 0 <= a < after[i].tokens.len() && 0 <= j < after.len() && 0 <= b
            < after[j].tokens.len() && (i != j || a != b) implies after[i].tokens[a]
        != after[j].tokens[b] by {
        if i == j {
            if i == at {
                assert(kept[a] != kept[b]);
            } else {
                assert(pages[i].tokens[a] != pages[j].tokens[b]);
            }
        } else {
            let x = after[i].tokens[a];
            let y = after[j].tokens[b];
            assert(pages[i].tokens.contains(x));
            assert(pages[j].tokens.contains(y));
            let c = choose|c: int| 0 <= c < pages[i].tokens.len() && pages[i].tokens[c] == x;
            let d = choose|d: int| 0 <= d < pages[j].tokens.len() && pages[j].tokens[d] == y;
            assert(pages[i].tokens[c] != pages[j].tokens[d]);
        }
    }
    assert forall|i: int| 0 <= i < after.len() implies ((#[trigger] after[i]).next_page is Some
        <==> i + 1 < after.len()) by {
        assert(after[i].next_page == pages[i].next_page);
    }
    assert forall|i: int| 0 <= i < after.len() implies (#[trigger] after[i]).tokens.len()
        <= MAX_TOKENS by {
        assert(pages[i].tokens.len() <= MAX_TOKENS);
    }
}

proof fn lemma_filter_absent(tokens: Seq<[u8; 32]>, symbol: [u8; 32])
    requires
        !tokens.contains(symbol),
    ensures
        tokens.filter(other_than(symbol)) == tokens,
        tokens.push(symbol).filter(other_than(symbol)) == tokens,
    decreases tokens.len(),
{
    reveal(Seq::filter);
    if tokens.len() > 0 {
        let rest = tokens.drop_last();
        assert(!rest.contains(symbol)) by {
            if rest.contains(symbol) {
                let i = choose|i: int| 0 <= i < rest.len() && rest[i] == symbol;
                assert(tokens[i] == symbol);
            }
        }
        assert(tokens.last() != symbol) by {
            assert(tokens[tokens.len() - 1] == tokens.last());
        }
        lemma_filter_absent(rest, symbol);
        assert(rest.push(tokens.last()) =~= tokens);
    }
    assert(tokens.push(symbol).drop_last() =~= tokens);
}

/// Removing a symbol right after it was added gives the chain back as it
/// was before.
pub proof fn lemma_remove_undoes_add(pages: Seq<TokenListView>, symbol: [u8; 32])
    requires
        add_outcome(pages, symbol) is Ok,
    ensures
        remove_outcome(add_outcome(pages, symbol)->Ok_0, symbol) == Ok::<
            Seq<TokenListView>,
            BridgeError,
        >(pages),
{
    let at = first_with_room(pages, 0);
    let after = add_outcome(pages, symbol)->Ok_0;
    lemma_first_with_room(pages, 0);
    lemma_first_holding(after, symbol, 0);
    let found = first_holding(after, symbol, 0);
    let grown = after[at].tokens;
    assert(grown[grown.len() - 1] == symbol);
    assert(after[at].tokens.contains(symbol));
    assert(found == at) by {
        if found < at {
            assert(after[found] == pages[found]);
            assert(pages[found].tokens.contains(symbol));
        }
    }
    assert(!pages[at].tokens.contains(symbol));
    lemma_filter_absent(pages[at].tokens, symbol);
    assert(page_without(after[at], symbol) == pages[at]);
    assert(after.update(at, pages[at]) =~= pages);
}

} // verus!
