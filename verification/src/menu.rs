//! The tray menu model: the entry list shown on the status icon, and the
//! dispatch of a clicked entry's identifier back to an action.
//!
//! The menu is fixed entries around one colored entry per project: show/hide,
//! dashboard, a stop entry enabled only while a timer runs, the projects
//! (identifier `project_` followed by the project id in decimal), and quit.

use vstd::prelude::*;
use crate::icon::{generate_menu_icon, spec_circle_icon_ok, spec_menu_rgb, MENU_ICON_SIZE};
use crate::timefmt::{digit_val, spec_dec, spec_digit_val, spec_is_digit, u64_to_dec};

verus! {

/// One project as shown in the tray menu.
pub struct ProjectInfo {
    pub id: i64,
    pub name: String,
    pub color: String,
}

/// One entry of the tray menu, top to bottom.
pub enum MenuEntry {
    /// A plain entry with a fixed identifier and label.
    Item { id: String, label: String, enabled: bool },
    /// A separator line.
    Separator,
    /// A project entry with a colored disc icon.
    ProjectItem { id: String, label: String, icon: Vec<u8> },
}

/// The action behind a clicked menu entry.
#[derive(Clone, Copy, Debug, PartialEq, Eq, Structural)]
pub enum MenuAction {
    /// Toggle the main window's visibility.
    ToggleWindow,
    /// Show (or recreate) the dashboard window.
    OpenDashboard,
    /// Ask the UI to stop the running timer.
    StopTimer,
    /// Ask the UI to start a timer for this project.
    StartProject { project_id: i64 },
    /// Exit the application.
    Quit,
    /// An identifier the menu never produces: do nothing.
    Nothing,
}

/// Value of a digit string, most significant first (zero when empty).
pub open spec fn spec_digits_val(s: Seq<char>) -> int
    decreases s.len(),
{
    if s.len() == 0 {
        0
    } else {
        spec_digits_val(s.drop_last()) * 10 + spec_digit_val(s.last())
    }
}

/// Every character is a decimal digit.
pub open spec fn spec_all_digits(s: Seq<char>) -> bool {
    forall|i: int| 0 <= i < s.len() ==> spec_is_digit(#[trigger] s[i])
}

/// A decimal `i64` as `str::parse::<i64>` reads it: an optional sign, then
/// one or more digits, rejected when the value leaves the `i64` range.
pub open spec fn spec_parse_i64(s: Seq<char>) -> Option<i64> {
    let neg = s.len() > 0 && s[0] == '-';
    let digs = if s.len() > 0 && (s[0] == '-' || s[0] == '+') {
        s.skip(1)
    } else {
        s
    };
    if digs.len() > 0 && spec_all_digits(digs) {
        let v = spec_digits_val(digs);
        if !neg && v <= i64::MAX {
            Some(v as i64)
        } else if neg && v <= i64::MAX + 1 {
            Some((-v) as i64)
        } else {
            None
        }
    } else {
        None
    }
}

/// Decimal representation of a signed integer.
pub open spec fn spec_i64_dec(v: int) -> Seq<char> {
    if v < 0 {
        seq!['-'] + spec_dec((-v) as nat)
    } else {
        spec_dec(v as nat)
    }
}

/// The menu identifier of a project: `project_` and the id in decimal.
pub open spec fn spec_project_menu_id(id: int) -> Seq<char> {
    "project_"@ + spec_i64_dec(id)
}

proof fn lemma_digits_val_nonneg(s: Seq<char>)
    requires
        spec_all_digits(s),
    ensures
        spec_digits_val(s) >= 0,
    decreases s.len(),
{
    if s.len() > 0 {
        assert(spec_all_digits(s.drop_last()));
        lemma_digits_val_nonneg(s.drop_last());
        assert(spec_is_digit(s.last()));
    }
}

proof fn lemma_digits_prefix_le(s: Seq<char>, k: int)
    requires
        0 <= k <= s.len(),
        spec_all_digits(s),
    ensures
        spec_digits_val(s.subrange(0, k)) <= spec_digits_val(s),
    decreases s.len() - k,
{
    if k == s.len() {
        assert(s.subrange(0, k) =~= s);
    } else {
        lemma_digits_prefix_le(s, k + 1);
        assert(s.subrange(0, k + 1).drop_last() =~= s.subrange(0, k));
        assert(s.subrange(0, k + 1).last() == s[k]);
        assert(spec_all_digits(s.subrange(0, k)));
        lemma_digits_val_nonneg(s.subrange(0, k));
        assert(spec_is_digit(s[k]));
        assert(spec_digits_val(s.subrange(0, k + 1)) == spec_digits_val(s.subrange(0, k)) * 10
            + spec_digit_val(s[k]));
    }
}

/// Parse a decimal `i64`, as `str::parse::<i64>` does: an optional `+` or
/// `-`, then one or more digits; out-of-range values are rejected.
pub fn parse_i64(s: &str) -> (r: Option<i64>)
    ensures
        r == spec_parse_i64(s@),
{
    let n = s.unicode_len();
    if n == 0 {
        return None;
    }
    let c0 = s.get_char(0);
    let neg = c0 == '-';
    let start: usize = if c0 == '-' || c0 == '+' {
        1
    } else {
        0
    };
    proof {
        if start == 1 {
            assert(s@.skip(1) =~= s@.subrange(1, n as int));
        } else {
            assert(s@ =~= s@.subrange(0, n as int));
        }
    }
    let ghost digs = s@.subrange(start as int, n as int);
    if n == start {
        return None;
    }
    let limit: u64 = if neg {
        0x8000_0000_0000_0000
    } else {
        0x7FFF_FFFF_FFFF_FFFF
    };
    let mut acc: u64 = 0;
    let mut i = start;
    while i < n
        invariant
            n == s@.len(),
            start <= i <= n,
            start < n,
            digs == s@.subrange(start as int, n as int),
            digs == (if s@.len() > 0 && (s@[0] == '-' || s@[0] == '+') {
                s@.skip(1)
            } else {
                s@
            }),
            neg == (s@.len() > 0 && s@[0] == '-'),
            limit == if neg {
                0x8000_0000_0000_0000u64
            } else {
                0x7FFF_FFFF_FFFF_FFFFu64
            },
            forall|j: int| start <= j < i ==> spec_is_digit(#[trigger] s@[j]),
            acc == spec_digits_val(s@.subrange(start as int, i as int)),
            acc <= limit,
        decreases n - i,
    {
        let c = s.get_char(i);
        let d = match digit_val(c) {
            Some(d) => d,
            None => {
                proof {
                    assert(digs[i - start] == s@[i as int]);
                    assert(!spec_all_digits(digs));
                }
                return None;
            },
        };
        proof {
            assert(s@.subrange(start as int, i as int + 1).drop_last() =~= s@.subrange(
                start as int,
                i as int,
            ));
            assert(s@.subrange(start as int, i as int + 1).last() == s@[i as int]);
        }
        if acc > (limit - d as u64) / 10 {
            proof {
                assert((acc as int) * 10 + (d as int) > limit as int) by (nonlinear_arith)
                    requires
                        acc as int > (limit as int - d as int) / 10,
                        0 <= d < 10,
                        d as int <= limit as int,
                        acc >= 0,
                ;
                if spec_all_digits(digs) {
                    assert(digs.subrange(0, (i + 1 - start) as int) =~= s@.subrange(
                        start as int,
                        i as int + 1,
                    ));
                    lemma_digits_prefix_le(digs, (i + 1 - start) as int);
                }
            }
            return None;
        }
        proof {
            assert((acc as int) * 10 + (d as int) <= limit as int) by (nonlinear_arith)
                requires
                    acc as int <= (limit as int - d as int) / 10,
                    0 <= d < 10,
                    d as int <= limit as int,
                    acc >= 0,
            ;
        }
        acc = acc * 10 + d as u64;
        i = i + 1;
    }
    proof {
        assert(digs =~= s@.subrange(start as int, n as int));
        assert forall|k: int| 0 <= k < digs.len() implies spec_is_digit(#[trigger] digs[k]) by {
            assert(digs[k] == s@[start + k]);
        };
        assert(spec_all_digits(digs));
    }
    if neg {
        if acc == 0x8000_0000_0000_0000 {
            Some(i64::MIN)
        } else {
            Some(-(acc as i64))
        }
    } else {
        Some(acc as i64)
    }
}

/// Decimal rendering of a signed integer.
pub fn i64_to_dec(v: i64) -> (r: String)
    ensures
        r@ == spec_i64_dec(v as int),
{
    if v >= 0 {
        u64_to_dec(v as u64)
    } else {
        let mag: u64 = (-(v as i128)) as u64;
        let mut s = String::from_str("-");
        proof {
            reveal_strlit("-");
            assert("-"@ =~= seq!['-']);
        }
        let digits = u64_to_dec(mag);
        s.append(digits.as_str());
        s
    }
}

/// Are two strings the same sequence of characters?
fn str_eq(a: &str, b: &str) -> (r: bool)
    ensures
        r == (a@ == b@),
{
    let n = a.unicode_len();
    let m = b.unicode_len();
    if n != m {
        return false;
    }
    let mut i: usize = 0;
    while i < n
        invariant
            n == a@.len(),
            n == b@.len(),
            i <= n,
            forall|j: int| 0 <= j < i ==> a@[j] == b@[j],
        decreases n - i,
    {
        if a.get_char(i) != b.get_char(i) {
            return false;
        }
        i = i + 1;
    }
    proof {
        assert(a@ =~= b@);
    }
    true
}

/// The action behind a menu identifier: the four fixed entries by name, a
/// project id parsed from `project_` entries, anything else nothing.
pub open spec fn spec_menu_action(s: Seq<char>) -> MenuAction {
    if s == "quit"@ {
        MenuAction::Quit
    } else if s == "show"@ {
        MenuAction::ToggleWindow
    } else if s == "dashboard"@ {
        MenuAction::OpenDashboard
    } else if s == "stop"@ {
        MenuAction::StopTimer
    } else if s.len() >= 8 && s.subrange(0, 8) == "project_"@ {
        match spec_parse_i64(s.skip(8)) {
            Some(v) => MenuAction::StartProject { project_id: v },
            None => MenuAction::Nothing,
        }
    } else {
        MenuAction::Nothing
    }
}

/// Dispatch a clicked menu entry's identifier.
pub fn menu_action(id: &str) -> (r: MenuAction)
    ensures
        r == spec_menu_action(id@),
{
    if str_eq(id, "quit") {
        return MenuAction::Quit;
    }
    if str_eq(id, "show") {
        return MenuAction::ToggleWindow;
    }
    if str_eq(id, "dashboard") {
        return MenuAction::OpenDashboard;
    }
    if str_eq(id, "stop") {
        return MenuAction::StopTimer;
    }
    let n = id.unicode_len();
    if n >= 8 {
        let head = id.substring_char(0, 8);
        if str_eq(head, "project_") {
            let tail = id.substring_char(8, n);
            proof {
                assert(id@.skip(8) =~= id@.subrange(8, n as int));
            }
            return match parse_i64(tail) {
                Some(v) => MenuAction::StartProject { project_id: v },
                None => MenuAction::Nothing,
            };
        }
    }
    MenuAction::Nothing
}

/// Round trip: the identifier the menu gives a project dispatches back to
/// starting exactly that project.
pub proof fn lemma_project_id_round_trip(id: i64)
    ensures
        spec_menu_action(spec_project_menu_id(id as int)) == (MenuAction::StartProject {
            project_id: id,
        }),
{
    let s = spec_project_menu_id(id as int);
    reveal_strlit("project_");
    reveal_strlit("quit");
    reveal_strlit("show");
    reveal_strlit("dashboard");
    reveal_strlit("stop");
    lemma_i64_dec_parses(id);
    assert(s.subrange(0, 8) =~= "project_"@);
    assert(s.skip(8) =~= spec_i64_dec(id as int));
    assert(s != "quit"@);
    assert(s != "show"@);
    assert(s != "dashboard"@) by {
        if s == "dashboard"@ {
            assert(s[7] == "dashboard"@[7]);
        }
    }
    assert(s != "stop"@);
}

proof fn lemma_dec_len_pos(n: nat)
    ensures
        spec_dec(n).len() >= 1,
        spec_all_digits(spec_dec(n)),
        spec_digits_val(spec_dec(n)) == n,
        spec_dec(n)[0] != '-',
        spec_dec(n)[0] != '+',
    decreases n,
{
    if n < 10 {
        crate::timefmt::lemma_digit_char_val(n as int);
        assert(spec_dec(n) =~= seq![crate::timefmt::spec_digit_char(n as int)]);
        assert(spec_dec(n).drop_last() =~= Seq::<char>::empty());
        assert(spec_dec(n).last() == crate::timefmt::spec_digit_char(n as int));
        assert(spec_digits_val(Seq::<char>::empty()) == 0);
        assert(spec_digits_val(spec_dec(n)) == spec_digits_val(spec_dec(n).drop_last()) * 10
            + spec_digit_val(spec_dec(n).last()));
    } else {
        lemma_dec_len_pos(n / 10);
        crate::timefmt::lemma_digit_char_val((n % 10) as int);
        assert(spec_dec(n).drop_last() =~= spec_dec(n / 10));
        assert(spec_dec(n).last() == crate::timefmt::spec_digit_char((n % 10) as int));
        assert(spec_digits_val(spec_dec(n)) == spec_digits_val(spec_dec(n).drop_last()) * 10
            + spec_digit_val(spec_dec(n).last()));
        assert(spec_digits_val(spec_dec(n)) == (n / 10) * 10 + (n % 10));
        assert forall|i: int| 0 <= i < spec_dec(n).len() implies spec_is_digit(
            #[trigger] spec_dec(n)[i],
        ) by {
            if i < spec_dec(n).len() - 1 {
                assert(spec_dec(n)[i] == spec_dec(n / 10)[i]);
            }
        };
    }
}

/// A decimal rendering of an `i64` parses back to the same value.
pub proof fn lemma_i64_dec_parses(v: i64)
    ensures
        spec_parse_i64(spec_i64_dec(v as int)) == Some(v),
{
    let s = spec_i64_dec(v as int);
    if v >= 0 {
        lemma_dec_len_pos(v as nat);
        assert(s == spec_dec(v as nat));
    } else {
        lemma_dec_len_pos((-(v as int)) as nat);
        assert(s[0] == '-');
        assert(s.skip(1) =~= spec_dec((-(v as int)) as nat));
    }
}

/// Build the tray menu for the given projects and running state: show/hide,
/// dashboard, separator, stop (enabled only while running), separator, one
/// colored entry per project, separator, quit.
pub fn build_tray_menu(projects: &Vec<ProjectInfo>, is_running: bool) -> (r: Vec<MenuEntry>)
    ensures
        r@.len() == projects@.len() + 7,
        r@[0] matches MenuEntry::Item { id, label, enabled } && id@ == "show"@ && label@
            == "Show/Hide Timer"@ && enabled,
        r@[1] matches MenuEntry::Item { id, label, enabled } && id@ == "dashboard"@ && label@
            == "Dashboard"@ && enabled,
        r@[2] is Separator,
        r@[3] matches MenuEntry::Item { id, label, enabled } && id@ == "stop"@ && label@
            == "Stop Timer"@ && enabled == is_running,
        r@[4] is Separator,
        forall|i: int|
            0 <= i < projects@.len() ==> (#[trigger] r@[5 + i] matches MenuEntry::ProjectItem {
                id,
                label,
                icon,
            } && id@ == spec_project_menu_id(projects@[i].id as int) && label@
                == projects@[i].name@ && spec_circle_icon_ok(
                icon@,
                MENU_ICON_SIZE as int,
                spec_menu_rgb(projects@[i].color@),
            )),
        r@[5 + projects@.len() as int] is Separator,
        r@[6 + projects@.len() as int] matches MenuEntry::Item { id, label, enabled } && id@ == "quit"@
            && label@ == "Quit"@ && enabled,
{
    let mut m: Vec<MenuEntry> = Vec::new();
    m.push(
        MenuEntry::Item {
            id: String::from_str("show"),
            label: String::from_str("Show/Hide Timer"),
            enabled: true,
        },
    );
    m.push(
        MenuEntry::Item {
            id: String::from_str("dashboard"),
            label: String::from_str("Dashboard"),
            enabled: true,
        },
    );
    m.push(MenuEntry::Separator);
    m.push(
        MenuEntry::Item {
            id: String::from_str("stop"),
            label: String::from_str("Stop Timer"),
            enabled: is_running,
        },
    );
    m.push(MenuEntry::Separator);
    let mut i: usize = 0;
    while i < projects.len()
        invariant
            i <= projects@.len(),
            m@.len() == 5 + i,
            m@[0] matches MenuEntry::Item { id, label, enabled } && id@ == "show"@ && label@
                == "Show/Hide Timer"@ && enabled,
            m@[1] matches MenuEntry::Item { id, label, enabled } && id@ == "dashboard"@ && label@
                == "Dashboard"@ && enabled,
            m@[2] is Separator,
            m@[3] matches MenuEntry::Item { id, label, enabled } && id@ == "stop"@ && label@
                == "Stop Timer"@ && enabled == is_running,
            m@[4] is Separator,
            forall|j: int|
                0 <= j < i ==> (#[trigger] m@[5 + j] matches MenuEntry::ProjectItem {
                    id,
                    label,
                    icon,
                } && id@ == spec_project_menu_id(projects@[j].id as int) && label@
                    == projects@[j].name@ && spec_circle_icon_ok(
                    icon@,
                    MENU_ICON_SIZE as int,
                    spec_menu_rgb(projects@[j].color@),
                )),
        decreases projects.len() - i,
    {
        let project = &projects[i];
        let mut id = String::from_str("project_");
        let digits = i64_to_dec(project.id);
        id.append(digits.as_str());
        let icon = generate_menu_icon(project.color.as_str());
        let label = project.name.clone();
        m.push(MenuEntry::ProjectItem { id, label, icon });
        i = i + 1;
    }
    m.push(MenuEntry::Separator);
    m.push(
        MenuEntry::Item { id: String::from_str("quit"), label: String::from_str("Quit"), enabled: true },
    );
    m
}

} // verus!
