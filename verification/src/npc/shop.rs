//! Shops that characters keep.
use vstd::prelude::*;
use crate::items::item::Item;
use crate::items::stack::ItemStack;
use crate::text::{decimal_digits, decimal_string, owned};

verus! {

/// A stack offered at a price.
pub struct ShopItem {
    pub stack: ItemStack,
    pub price: u64,
}

impl ShopItem {
    /// The text that presents the offer: the item's name, ` x` and how many
    /// items the stack holds.
    pub fn label(&self) -> (s: String)
        ensures
            s@ == self.stack.item.item_name() + " x"@ + decimal_digits((self.stack.count + 1) as nat),
    {
        let name = self.stack.item.name();
        let mut s = owned(name.get());
        s.append(" x");
        let count = decimal_string(self.stack.actual_count() as u64);
        s.append(count.as_str());
        s
    }
}

/// What a shop sells and what it buys.
pub struct Shop {
    pub sells: Vec<ShopItem>,
    pub buys: Vec<ShopItem>,
}

/// The shop that is open, if any.
pub struct CurrentShop {
    pub shop: Option<Shop>,
}

impl Default for CurrentShop {
    /// No shop open.
    fn default() -> (c: CurrentShop)
        ensures
            c.shop is None,
    {
        CurrentShop { shop: None }
    }
}

/// The tabs of an open shop.
#[derive(Debug, Clone, Copy, PartialEq, Eq, Structural)]
pub enum ShopUiState {
    Buy,
    Sell,
}

/// The translation key of a tab's title.
pub open spec fn shop_tab_key(tab: ShopUiState) -> Seq<char> {
    match tab {
        ShopUiState::Buy => "ui.shop.buy"@,
        ShopUiState::Sell => "ui.shop.sell"@,
    }
}

impl ShopUiState {
    /// Every tab, in the order they are shown.
    pub fn all() -> (v: Vec<ShopUiState>)
        ensures
            v@ == seq![ShopUiState::Buy, ShopUiState::Sell],
    {
        let mut v = Vec::new();
        v.push(ShopUiState::Buy);
        v.push(ShopUiState::Sell);
        v
    }

    /// The name of the tab.
    pub fn name(&self) -> (s: String)
        ensures
            s@ == match *self {
                ShopUiState::Buy => "Buy"@,
                ShopUiState::Sell => "Sell"@,
            },
    {
        match self {
            ShopUiState::Buy => owned("Buy"),
            ShopUiState::Sell => owned("Sell"),
        }
    }

    /// The translation key of the tab's title: `ui.shop.` and the tab's
    /// name in lower case.
    pub fn lang_key(&self) -> (s: String)
        ensures
            s@ == shop_tab_key(*self),
    {
        match self {
            ShopUiState::Buy => owned("ui.shop.buy"),
            ShopUiState::Sell => owned("ui.shop.sell"),
        }
    }
}

/// What the player does on the open shop's page.
#[derive(Debug, Clone, Copy, PartialEq, Eq, Structural)]
pub enum ShopEvent {
    /// Closes the shop.
    Close,
    /// Opens a tab.
    Tab(ShopUiState),
    /// Buys the offer at this position of the list of what the shop sells.
    Buy(usize),
}

/// What came of it.
#[derive(Debug, Clone, Copy, PartialEq, Eq, Structural)]
pub enum ShopAction {
    /// Nothing more to do.
    Stay,
    /// The shop is to be closed.
    Closed,
    /// The player paid and takes this stack.
    Bought(ItemStack),
    /// The player cannot pay the price.
    TooPoor,
}

/// Handles one thing the player does on the shop's page, `state` being the
/// tab open and `money` what the player has. Closing leaves both as they
/// are; a tab opens when clicked; an offer of the buy tab is bought when the
/// player has its price, which is then paid. Anything else changes nothing.
pub fn shop_step(shop: &Shop, state: &mut ShopUiState, money: &mut u64, event: ShopEvent) -> (a: ShopAction)
    ensures
        match event {
            ShopEvent::Close => {
                &&& a == ShopAction::Closed
                &&& *final(state) == *old(state)
                &&& *final(money) == *old(money)
            },
            ShopEvent::Tab(t) => {
                &&& a == ShopAction::Stay
                &&& *final(state) == t
                &&& *final(money) == *old(money)
            },
            ShopEvent::Buy(i) => {
                &&& *final(state) == *old(state)
                &&& (*old(state) == ShopUiState::Buy && i < shop.sells@.len() && *old(money)
                    >= shop.sells@[i as int].price) ==> {
                    &&& *final(money) == *old(money) - shop.sells@[i as int].price
                    &&& a == ShopAction::Bought(shop.sells@[i as int].stack)
                }
                &&& (*old(state) == ShopUiState::Buy && i < shop.sells@.len() && *old(money)
                    < shop.sells@[i as int].price) ==> {
                    &&& *final(money) == *old(money)
                    &&& a == ShopAction::TooPoor
                }
                &&& !(*old(state) == ShopUiState::Buy && i < shop.sells@.len()) ==> {
                    &&& *final(money) == *old(money)
                    &&& a == ShopAction::Stay
                }
            },
        },
{
    match event {
        ShopEvent::Close => ShopAction::Closed,
        ShopEvent::Tab(t) => {
            *state = t;
            ShopAction::Stay
        },
        ShopEvent::Buy(i) => {
            let on_buy_tab = match *state {
                ShopUiState::Buy => true,
                ShopUiState::Sell => false,
            };
            if on_buy_tab && i < shop.sells.len() {
                let price = shop.sells[i].price;
                if *money >= price {
                    *money = *money - price;
                    ShopAction::Bought(shop.sells[i].stack)
                } else {
                    ShopAction::TooPoor
                }
            } else {
                ShopAction::Stay
            }
        },
    }
}

} // verus!
