//! The touch screen's decisions: which screen to show, and which product a
//! touch buys, with a stock that never goes below zero.
use vstd::prelude::*;

verus! {

/// Touches closer together than this, in milliseconds, are ignored.
pub const TOUCH_TIMEOUT_MS: u64 = 1000;

/// Width of the touch panel; its x axis runs opposite to the screen's.
pub const PANEL_WIDTH: u16 = 320;

#[derive(Debug, Clone, Copy, PartialEq, Eq, Structural)]
pub enum Product {
    Hotdog,
    Sandwich,
    EnergyDrink,
}

/// A point on the touch panel, in panel coordinates.
#[derive(Debug, Clone, Copy, PartialEq, Eq, Structural)]
pub struct TouchPoint {
    pub x: u16,
    pub y: u16,
}

/// What the touch controller reported.
#[derive(Debug, Clone, Copy, PartialEq, Eq, Structural)]
pub enum TouchEvent {
    /// The capacitive button, pressed or let go.
    Button { pressed: bool },
    /// A touch report, with its first touch point if there is one.
    Touch(Option<TouchPoint>),
}

/// What the caller is to do after an event.
#[derive(Debug, Clone, Copy, PartialEq, Eq, Structural)]
pub enum KioskAction {
    Nothing,
    /// Draw the sensor readings screen.
    ShowSensors,
    /// Clear the screen and draw the inventory.
    ShowInventory,
    /// One unit of the product was sold: redraw its field.
    Sold(Product),
}

/// Units left of each product.
#[derive(Debug, Clone, Copy, PartialEq, Eq, Structural)]
pub struct Stock {
    pub hotdog: u32,
    pub sandwich: u32,
    pub energy_drink: u32,
}

impl Stock {
    pub open spec fn units(&self, p: Product) -> u32 {
        match p {
            Product::Hotdog => self.hotdog,
            Product::Sandwich => self.sandwich,
            Product::EnergyDrink => self.energy_drink,
        }
    }

    pub fn get(&self, p: Product) -> (n: u32)
        ensures
            n == self.units(p),
    {
        match p {
            Product::Hotdog => self.hotdog,
            Product::Sandwich => self.sandwich,
            Product::EnergyDrink => self.energy_drink,
        }
    }

    /// Takes one unit of `p` if there is one; says whether there was.
    pub fn take_one(&mut self, p: Product) -> (sold: bool)
        ensures
            sold == (old(self).units(p) > 0),
            sold ==> final(self).units(p) == old(self).units(p) - 1,
            !sold ==> *final(self) == *old(self),
            forall|q: Product| q != p ==> final(self).units(q) == old(self).units(q),
    {
        match p {
            Product::Hotdog => {
                if self.hotdog > 0 {
                    self.hotdog = self.hotdog - 1;
                    true
                } else {
                    false
                }
            },
            Product::Sandwich => {
                if self.sandwich > 0 {
                    self.sandwich = self.sandwich - 1;
                    true
                } else {
                    false
                }
            },
            Product::EnergyDrink => {
                if self.energy_drink > 0 {
                    self.energy_drink = self.energy_drink - 1;
                    true
                } else {
                    false
                }
            },
        }
    }
}

/// The product whose buy field holds the panel point `(x, y)`: the fields lie
/// in one column, screen x strictly between 230 and 310, one above the other.
pub open spec fn product_at_spec(x: u16, y: u16) -> Option<Product> {
    let sx = PANEL_WIDTH - x;
    if x > PANEL_WIDTH || !(230 < sx < 310) {
        None
    } else if 17 < y < 55 {
        Some(Product::Hotdog)
    } else if 87 < y < 125 {
        Some(Product::Sandwich)
    } else if 167 < y < 205 {
        Some(Product::EnergyDrink)
    } else {
        None
    }
}

pub fn product_at(p: TouchPoint) -> (r: Option<Product>)
    ensures
        r == product_at_spec(p.x, p.y),
{
    if p.x > PANEL_WIDTH {
        return None;
    }
    let sx = PANEL_WIDTH - p.x;
    if !(230 < sx && sx < 310) {
        None
    } else if 17 < p.y && p.y < 55 {
        Some(Product::Hotdog)
    } else if 87 < p.y && p.y < 125 {
        Some(Product::Sandwich)
    } else if 167 < p.y && p.y < 205 {
        Some(Product::EnergyDrink)
    } else {
        None
    }
}

/// The touch screen's state: when the last event was taken, which screen
/// is up, and the stock.
#[derive(Debug, Clone, Copy, PartialEq, Eq, Structural)]
pub struct Kiosk {
    pub last_touch_ms: u64,
    pub sensor_view: bool,
    pub stock: Stock,
}

impl Kiosk {
    pub fn new(stock: Stock) -> (k: Kiosk)
        ensures
            k.last_touch_ms == 0,
            !k.sensor_view,
            k.stock == stock,
    {
        Kiosk { last_touch_ms: 0, sensor_view: false, stock }
    }

    /// Takes one event reported at `now_ms`. Within the timeout of the last
    /// taken event it is ignored. Otherwise it is taken: a button press flips
    /// the screen, a touch on a product's field sells one unit of it if any is
    /// left, and anything else does nothing.
    pub fn on_event(&mut self, now_ms: u64, event: TouchEvent) -> (a: KioskAction)
        requires
            old(self).last_touch_ms <= now_ms,
        ensures
            now_ms - old(self).last_touch_ms <= TOUCH_TIMEOUT_MS ==> a == KioskAction::Nothing && *final(self) == *old(self),
            now_ms - old(self).last_touch_ms > TOUCH_TIMEOUT_MS ==> {
                &&& final(self).last_touch_ms == now_ms
                &&& match event {
                    TouchEvent::Button { pressed } => {
                        &&& final(self).stock == old(self).stock
                        &&& final(self).sensor_view == (old(self).sensor_view != pressed)
                        &&& a == (if !pressed {
                            KioskAction::Nothing
                        } else if final(self).sensor_view {
                            KioskAction::ShowSensors
                        } else {
                            KioskAction::ShowInventory
                        })
                    },
                    TouchEvent::Touch(point) => {
                        &&& final(self).sensor_view == old(self).sensor_view
                        &&& match point {
                            Some(pt) => match product_at_spec(pt.x, pt.y) {
                                Some(p) => {
                                    if old(self).stock.units(p) > 0 {
                                        &&& a == KioskAction::Sold(p)
                                        &&& final(self).stock.units(p) == old(self).stock.units(p) - 1
                                        &&& forall|q: Product| q != p ==> final(self).stock.units(q) == old(self).stock.units(q)
                                    } else {
                                        a == KioskAction::Nothing && final(self).stock == old(self).stock
                                    }
                                },
                                None => a == KioskAction::Nothing && final(self).stock == old(self).stock,
                            },
                            None => a == KioskAction::Nothing && final(self).stock == old(self).stock,
                        }
                    },
                }
            },
    {
        if now_ms - self.last_touch_ms <= TOUCH_TIMEOUT_MS {
            return KioskAction::Nothing;
        }
        let action = match event {
            TouchEvent::Button { pressed } => {
                if pressed {
                    self.sensor_view = !self.sensor_view;
                    if self.sensor_view {
                        KioskAction::ShowSensors
                    } else {
                        KioskAction::ShowInventory
                    }
                } else {
                    KioskAction::Nothing
                }
            },
            TouchEvent::Touch(Some(pt)) => match product_at(pt) {
                Some(p) => {
                    if self.stock.take_one(p) {
                        KioskAction::Sold(p)
                    } else {
                        KioskAction::Nothing
                    }
                },
                None => KioskAction::Nothing,
            },
            TouchEvent::Touch(None) => KioskAction::Nothing,
        };
        self.last_touch_ms = now_ms;
        action
    }
}

} // verus!
