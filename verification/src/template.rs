//! Pre-configured blueprints for child shells, with a chaining builder.
use vstd::prelude::*;

use crate::child::with_unique;
use crate::kind::{KindView, ShellKind};
use crate::port::{port_views, PortConfig, PortView};
use crate::text::{contains_string, views};

verus! {

/// A named blueprint: kind, default ports, APIs and rooms, budget, autonomy
/// level and child limit.
///
/// `default_budget` holds the IEEE-754 binary64 bit pattern of the budget
/// (as given by `f64::to_bits`); this library only stores and copies it.
#[derive(Debug)]
pub struct ShellTemplate {
    pub name: String,
    pub kind: ShellKind,
    pub default_ports: Vec<PortConfig>,
    pub default_apis: Vec<String>,
    pub default_rooms: Vec<String>,
    pub default_budget: u64,
    pub autonomy_level: u32,
    pub max_children: u32,
}

/// The contents of a [`ShellTemplate`], with every string taken by its characters.
pub ghost struct TemplateView {
    pub name: Seq<char>,
    pub kind: KindView,
    pub default_ports: Seq<PortView>,
    pub default_apis: Seq<Seq<char>>,
    pub default_rooms: Seq<Seq<char>>,
    pub default_budget: u64,
    pub autonomy_level: u32,
    pub max_children: u32,
}

impl View for ShellTemplate {
    type V = TemplateView;

    open spec fn view(&self) -> TemplateView {
        TemplateView {
            name: self.name@,
            kind: self.kind@,
            default_ports: port_views(self.default_ports@),
            default_apis: views(self.default_apis@),
            default_rooms: views(self.default_rooms@),
            default_budget: self.default_budget,
            autonomy_level: self.autonomy_level,
            max_children: self.max_children,
        }
    }
}

/// The port that [`PortConfig::new`] builds from these texts.
pub open spec fn port_spec(protocol: Seq<char>, direction: Seq<char>, target: Seq<char>) -> PortView {
    PortView { protocol, direction, target, permissions: seq!["read"@], enabled: true }
}

/// Bit pattern of the binary64 value 100.0.
pub const BUDGET_ONE_HUNDRED: u64 = 0x4059_0000_0000_0000;

/// Bit pattern of the binary64 value 200.0.
pub const BUDGET_TWO_HUNDRED: u64 = 0x4069_0000_0000_0000;

/// Bit pattern of the binary64 value 300.0.
pub const BUDGET_THREE_HUNDRED: u64 = 0x4072_c000_0000_0000;

/// Bit pattern of the binary64 value 500.0.
pub const BUDGET_FIVE_HUNDRED: u64 = 0x407f_4000_0000_0000;

/// Bit pattern of the binary64 value 1000.0.
pub const BUDGET_ONE_THOUSAND: u64 = 0x408f_4000_0000_0000;

/// One owned string per literal, in order.
fn strings1(a: &str) -> (r: Vec<String>)
    ensures
        views(r@) == seq![a@],
{
    let mut r: Vec<String> = Vec::new();
    r.push(String::from_str(a));
    assert(views(r@) =~= seq![a@]);
    r
}

/// One owned string per literal, in order.
fn strings2(a: &str, b: &str) -> (r: Vec<String>)
    ensures
        views(r@) == seq![a@, b@],
{
    let mut r = strings1(a);
    let ghost before = r@;
    r.push(String::from_str(b));
    assert(views(r@) =~= views(before).push(b@));
    assert(views(r@) =~= seq![a@, b@]);
    r
}

/// One owned string per literal, in order.
fn strings3(a: &str, b: &str, c: &str) -> (r: Vec<String>)
    ensures
        views(r@) == seq![a@, b@, c@],
{
    let mut r = strings2(a, b);
    let ghost before = r@;
    r.push(String::from_str(c));
    assert(views(r@) =~= views(before).push(c@));
    assert(views(r@) =~= seq![a@, b@, c@]);
    r
}

/// A single port.
fn one_port(p: PortConfig) -> (r: Vec<PortConfig>)
    ensures
        port_views(r@) == seq![p@],
{
    let ghost v = p@;
    let mut r: Vec<PortConfig> = Vec::new();
    r.push(p);
    assert(port_views(r@) =~= seq![v]);
    r
}

impl ShellTemplate {
    /// The isolated worker: one local port, read only, room `main`, budget 100,
    /// autonomy 1.
    pub fn zeroclaw() -> (r: Self)
        ensures
            r@ == (TemplateView {
                name: "zeroclaw"@,
                kind: KindView::ZeroClaw,
                default_ports: seq![port_spec("local"@, "in"@, "localhost"@)],
                default_apis: seq!["read"@],
                default_rooms: seq!["main"@],
                default_budget: BUDGET_ONE_HUNDRED,
                autonomy_level: 1,
                max_children: 0,
            }),
    {
        ShellTemplate {
            name: String::from_str("zeroclaw"),
            kind: ShellKind::ZeroClaw,
            default_ports: one_port(PortConfig::new("local", "in", "localhost")),
            default_apis: strings1("read"),
            default_rooms: strings1("main"),
            default_budget: BUDGET_ONE_HUNDRED,
            autonomy_level: 1,
            max_children: 0,
        }
    }

    /// The GPU compute worker: a CUDA port, read/compute/cuda, room `compute`,
    /// budget 500, autonomy 2.
    pub fn cudaclaw() -> (r: Self)
        ensures
            r@ == (TemplateView {
                name: "cudaclaw"@,
                kind: KindView::CUDAClaw,
                default_ports: seq![port_spec("cuda"@, "in"@, "gpu-bus"@)],
                default_apis: seq!["read"@, "compute"@, "cuda"@],
                default_rooms: seq!["compute"@],
                default_budget: BUDGET_FIVE_HUNDRED,
                autonomy_level: 2,
                max_children: 0,
            }),
    {
        ShellTemplate {
            name: String::from_str("cudaclaw"),
            kind: ShellKind::CUDAClaw,
            default_ports: one_port(PortConfig::new("cuda", "in", "gpu-bus")),
            default_apis: strings3("read", "compute", "cuda"),
            default_rooms: strings1("compute"),
            default_budget: BUDGET_FIVE_HUNDRED,
            autonomy_level: 2,
            max_children: 0,
        }
    }

    /// The messaging bot: a Telegram port, read/write/telegram, room `chat`,
    /// budget 200, autonomy 3.
    pub fn telegram_bot() -> (r: Self)
        ensures
            r@ == (TemplateView {
                name: "telegram_bot"@,
                kind: KindView::Custom("TelegramBot"@),
                default_ports: seq![port_spec("telegram"@, "inout"@, "api.telegram.org"@)],
                default_apis: seq!["read"@, "write"@, "telegram"@],
                default_rooms: seq!["chat"@],
                default_budget: BUDGET_TWO_HUNDRED,
                autonomy_level: 3,
                max_children: 0,
            }),
    {
        ShellTemplate {
            name: String::from_str("telegram_bot"),
            kind: ShellKind::Custom(String::from_str("TelegramBot")),
            default_ports: one_port(PortConfig::new("telegram", "inout", "api.telegram.org")),
            default_apis: strings3("read", "write", "telegram"),
            default_rooms: strings1("chat"),
            default_budget: BUDGET_TWO_HUNDRED,
            autonomy_level: 3,
            max_children: 0,
        }
    }

    /// The vehicle controller: sensor and navigation ports, read/navigate, room
    /// `navigation`, budget 1000, autonomy 5, at most two children.
    pub fn underwater_vehicle() -> (r: Self)
        ensures
            r@ == (TemplateView {
                name: "underwater_vehicle"@,
                kind: KindView::Custom("UnderwaterVehicle"@),
                default_ports: seq![
                    port_spec("sensor"@, "in"@, "serial://imu"@),
                    port_spec("navigation"@, "out"@, "serial://thrusters"@),
                ],
                default_apis: seq!["read"@, "navigate"@],
                default_rooms: seq!["navigation"@],
                default_budget: BUDGET_ONE_THOUSAND,
                autonomy_level: 5,
                max_children: 2,
            }),
    {
        let mut ports = one_port(PortConfig::new("sensor", "in", "serial://imu"));
        let second = PortConfig::new("navigation", "out", "serial://thrusters");
        let ghost first_view = port_views(ports@)[0];
        let ghost second_view = second@;
        let ghost before = ports@;
        ports.push(second);
        assert(port_views(ports@) =~= port_views(before).push(second_view));
        assert(port_views(ports@) =~= seq![first_view, second_view]);
        ShellTemplate {
            name: String::from_str("underwater_vehicle"),
            kind: ShellKind::Custom(String::from_str("UnderwaterVehicle")),
            default_ports: ports,
            default_apis: strings2("read", "navigate"),
            default_rooms: strings1("navigation"),
            default_budget: BUDGET_ONE_THOUSAND,
            autonomy_level: 5,
            max_children: 2,
        }
    }

    /// The media hub: a media port, read/write/media, room `social`, budget 300,
    /// autonomy 2, at most four children.
    pub fn media_center() -> (r: Self)
        ensures
            r@ == (TemplateView {
                name: "media_center"@,
                kind: KindView::Custom("MediaCenter"@),
                default_ports: seq![port_spec("media"@, "inout"@, "media-bus"@)],
                default_apis: seq!["read"@, "write"@, "media"@],
                default_rooms: seq!["social"@],
                default_budget: BUDGET_THREE_HUNDRED,
                autonomy_level: 2,
                max_children: 4,
            }),
    {
        ShellTemplate {
            name: String::from_str("media_center"),
            kind: ShellKind::Custom(String::from_str("MediaCenter")),
            default_ports: one_port(PortConfig::new("media", "inout", "media-bus")),
            default_apis: strings3("read", "write", "media"),
            default_rooms: strings1("social"),
            default_budget: BUDGET_THREE_HUNDRED,
            autonomy_level: 2,
            max_children: 4,
        }
    }

    /// A blank template named `name` of kind `Custom(name)`: no ports or rooms,
    /// read only, budget 100, autonomy 0.
    pub fn custom(name: &str) -> (r: Self)
        ensures
            r@ == (TemplateView {
                name: name@,
                kind: KindView::Custom(name@),
                default_ports: Seq::empty(),
                default_apis: seq!["read"@],
                default_rooms: Seq::empty(),
                default_budget: BUDGET_ONE_HUNDRED,
                autonomy_level: 0,
                max_children: 0,
            }),
    {
        let ports: Vec<PortConfig> = Vec::new();
        let rooms: Vec<String> = Vec::new();
        assert(port_views(ports@) =~= Seq::<PortView>::empty());
        assert(views(rooms@) =~= Seq::<Seq<char>>::empty());
        ShellTemplate {
            name: String::from_str(name),
            kind: ShellKind::Custom(String::from_str(name)),
            default_ports: ports,
            default_apis: strings1("read"),
            default_rooms: rooms,
            default_budget: BUDGET_ONE_HUNDRED,
            autonomy_level: 0,
            max_children: 0,
        }
    }

    /// This template with `port` added after its ports.
    pub fn with_port(self, port: PortConfig) -> (r: Self)
        ensures
            r@ == (TemplateView { default_ports: self@.default_ports.push(port@), ..self@ }),
    {
        let ghost before = self@;
        let ghost pv = port@;
        let mut t = self;
        t.default_ports.push(port);
        assert(port_views(t.default_ports@) =~= before.default_ports.push(pv));
        t
    }

    /// This template with `api` added, unless it already has it.
    pub fn with_api(self, api: &str) -> (r: Self)
        ensures
            r@ == (TemplateView {
                default_apis: with_unique(self@.default_apis, api@),
                ..self@
            }),
    {
        let ghost before = self@;
        let mut t = self;
        let a = String::from_str(api);
        if !contains_string(&t.default_apis, &a) {
            t.default_apis.push(a);
            assert(views(t.default_apis@) =~= before.default_apis.push(api@));
        }
        t
    }

    /// This template with `room` added, unless it already has it.
    pub fn with_room(self, room: &str) -> (r: Self)
        ensures
            r@ == (TemplateView {
                default_rooms: with_unique(self@.default_rooms, room@),
                ..self@
            }),
    {
        let ghost before = self@;
        let mut t = self;
        let a = String::from_str(room);
        if !contains_string(&t.default_rooms, &a) {
            t.default_rooms.push(a);
            assert(views(t.default_rooms@) =~= before.default_rooms.push(room@));
        }
        t
    }

    /// This template with the budget set, given by its binary64 bit pattern.
    pub fn with_budget(self, budget: u64) -> (r: Self)
        ensures
            r@ == (TemplateView { default_budget: budget, ..self@ }),
    {
        let mut t = self;
        t.default_budget = budget;
        t
    }
}

impl Clone for ShellTemplate {
    fn clone(&self) -> (r: Self)
        ensures
            r@ == self@,
    {
        let default_ports = self.default_ports.clone();
        let default_apis = self.default_apis.clone();
        let default_rooms = self.default_rooms.clone();
        assert(port_views(default_ports@) =~= port_views(self.default_ports@));
        assert(views(default_apis@) =~= views(self.default_apis@));
        assert(views(default_rooms@) =~= views(self.default_rooms@));
        ShellTemplate {
            name: self.name.clone(),
            kind: self.kind.clone(),
            default_ports,
            default_apis,
            default_rooms,
            default_budget: self.default_budget,
            autonomy_level: self.autonomy_level,
            max_children: self.max_children,
        }
    }
}

} // verus!
