use vstd::prelude::*;
use vstd::string::*;
use crate::models::{opt_view, opt_string_same, opt_bool_same};
use crate::text::{
    trim, is_ws, has_infix, lowercase, uppercase, char_len, char_at, matches_at, starts_with,
    slice_chars, trim_str, to_lowercase, to_uppercase, contains_str, str_eq,
};

verus! {

broadcast use vstd::string::group_string_axioms;

/// Volume, battery and network state shown by the interface.
#[derive(Debug, Clone)]
pub struct SystemStatus {
    /// 0 to 100.
    pub volume_percent: u8,
    pub muted: bool,
    /// Absent when there is no battery.
    pub battery_percent: Option<u8>,
    pub charging: Option<bool>,
    pub wifi_up: bool,
    pub ssid: Option<String>,
}

/// The contents of a `SystemStatus`.
pub struct SystemStatusView {
    pub volume_percent: u8,
    pub muted: bool,
    pub battery_percent: Option<u8>,
    pub charging: Option<bool>,
    pub wifi_up: bool,
    pub ssid: Option<Seq<char>>,
}

impl View for SystemStatus {
    type V = SystemStatusView;

    open spec fn view(&self) -> SystemStatusView {
        SystemStatusView {
            volume_percent: self.volume_percent,
            muted: self.muted,
            battery_percent: self.battery_percent,
            charging: self.charging,
            wifi_up: self.wifi_up,
            ssid: opt_view(self.ssid),
        }
    }
}

impl Default for SystemStatus {
    fn default() -> (r: SystemStatus)
        ensures
            r@ == default_status(),
    {
        SystemStatus {
            volume_percent: 0,
            muted: false,
            battery_percent: None,
            charging: None,
            wifi_up: false,
            ssid: None,
        }
    }
}

impl SystemStatus {
    /// Takes a new volume reading; tells whether the status changed.
    pub fn update_volume(&mut self, volume_percent: u8, muted: bool) -> (changed: bool)
        ensures
            final(self)@ == (SystemStatusView { volume_percent, muted, ..old(self)@ }),
            final(self)@ == apply_reading(old(self)@, MonitorReading::Volume(volume_percent, muted)),
            changed == (old(self).volume_percent != volume_percent || old(self).muted != muted),
            changed == (final(self)@ != old(self)@),
    {
        let mut changed = false;
        if self.volume_percent != volume_percent {
            self.volume_percent = volume_percent;
            changed = true;
        }
        if self.muted != muted {
            self.muted = muted;
            changed = true;
        }
        changed
    }

    /// Takes a new network reading; tells whether the status changed.
    pub fn update_wifi(&mut self, wifi_up: bool, ssid: Option<String>) -> (changed: bool)
        ensures
            final(self)@ == (SystemStatusView { wifi_up, ssid: opt_view(ssid), ..old(self)@ }),
            final(self)@ == apply_reading(old(self)@, MonitorReading::Wifi(wifi_up, ssid)),
            changed == (old(self).wifi_up != wifi_up || old(self)@.ssid != opt_view(ssid)),
            changed == (final(self)@ != old(self)@),
    {
        let mut changed = false;
        if self.wifi_up != wifi_up {
            self.wifi_up = wifi_up;
            changed = true;
        }
        if !opt_string_same(&self.ssid, &ssid) {
            self.ssid = ssid;
            changed = true;
        }
        changed
    }

    /// Takes a new battery reading; tells whether the status changed.
    pub fn update_battery(&mut self, battery_percent: Option<u8>, charging: Option<bool>) -> (changed: bool)
        ensures
            final(self)@ == (SystemStatusView { battery_percent, charging, ..old(self)@ }),
            final(self)@ == apply_reading(old(self)@, MonitorReading::Battery(battery_percent, charging)),
            changed == (old(self).battery_percent != battery_percent || old(self).charging != charging),
            changed == (final(self)@ != old(self)@),
    {
        let mut changed = false;
        let same_pct = match (self.battery_percent, battery_percent) {
            (Some(a), Some(b)) => a == b,
            (None, None) => true,
            _ => false,
        };
        if !same_pct {
            self.battery_percent = battery_percent;
            changed = true;
        }
        if !opt_bool_same(self.charging, charging) {
            self.charging = charging;
            changed = true;
        }
        changed
    }
}

/// One reading that a polling task of the system monitor hands to the snapshot.
pub enum MonitorReading {
    /// Volume percentage and muted flag (`update_volume`).
    Volume(u8, bool),
    /// Radio state and network name (`update_wifi`).
    Wifi(bool, Option<String>),
    /// Battery charge and charging flag (`update_battery`).
    Battery(Option<u8>, Option<bool>),
}

/// The snapshot the monitor starts from (`SystemStatus::default`).
pub open spec fn default_status() -> SystemStatusView {
    SystemStatusView {
        volume_percent: 0,
        muted: false,
        battery_percent: None,
        charging: None,
        wifi_up: false,
        ssid: None,
    }
}

/// The snapshot after taking one reading.
pub open spec fn apply_reading(s: SystemStatusView, r: MonitorReading) -> SystemStatusView {
    match r {
        MonitorReading::Volume(volume_percent, muted) => SystemStatusView { volume_percent, muted, ..s },
        MonitorReading::Wifi(wifi_up, ssid) => SystemStatusView { wifi_up, ssid: opt_view(ssid), ..s },
        MonitorReading::Battery(battery_percent, charging) => SystemStatusView { battery_percent, charging, ..s },
    }
}

/// The snapshot after taking the readings `rs` in turn, starting from `s0`.
pub open spec fn snapshot_after(s0: SystemStatusView, rs: Seq<MonitorReading>) -> SystemStatusView
    decreases rs.len(),
{
    if rs.len() == 0 {
        s0
    } else {
        apply_reading(snapshot_after(s0, rs.drop_last()), rs.last())
    }
}

/// The snapshots the monitor emits while taking the readings `rs` in turn: a reading
/// emits the new snapshot when it changed it, and nothing otherwise.
pub open spec fn emitted_snapshots(s0: SystemStatusView, rs: Seq<MonitorReading>) -> Seq<SystemStatusView>
    decreases rs.len(),
{
    if rs.len() == 0 {
        Seq::empty()
    } else {
        let prev = snapshot_after(s0, rs.drop_last());
        let next = apply_reading(prev, rs.last());
        let earlier = emitted_snapshots(s0, rs.drop_last());
        if next != prev {
            earlier.push(next)
        } else {
            earlier
        }
    }
}

/// The system monitor emits no snapshot without a change and no change without a
/// snapshot: however its polling tasks interleave their readings `rs`, the first emitted
/// snapshot differs from the starting one, each emitted snapshot differs from the one
/// emitted before it, the last one emitted is the current snapshot, and while nothing
/// has been emitted the snapshot is still the starting one.
pub proof fn law_monitor_emits_only_changes(s0: SystemStatusView, rs: Seq<MonitorReading>)
    ensures
        emitted_snapshots(s0, rs).len() == 0 ==> snapshot_after(s0, rs) == s0,
        emitted_snapshots(s0, rs).len() > 0 ==> emitted_snapshots(s0, rs).last() == snapshot_after(s0, rs),
        emitted_snapshots(s0, rs).len() > 0 ==> emitted_snapshots(s0, rs)[0] != s0,
        forall|i: int| 0 <= i < emitted_snapshots(s0, rs).len() - 1
            ==> #[trigger] emitted_snapshots(s0, rs)[i] != emitted_snapshots(s0, rs)[i + 1],
    decreases rs.len(),
{
    if rs.len() > 0 {
        let r0 = rs.drop_last();
        law_monitor_emits_only_changes(s0, r0);
        let prev = snapshot_after(s0, r0);
        let next = apply_reading(prev, rs.last());
        let e0 = emitted_snapshots(s0, r0);
        let e = emitted_snapshots(s0, rs);
        if next != prev {
            assert(e == e0.push(next));
            assert forall|i: int| 0 <= i < e.len() - 1 implies #[trigger] e[i] != e[i + 1] by {
                if i < e0.len() - 1 {
                    assert(e[i] == e0[i] && e[i + 1] == e0[i + 1]);
                } else {
                    assert(e[i] == e0.last());
                }
            }
            if e0.len() > 0 {
                assert(e[0] == e0[0]);
            }
        } else {
            assert(e == e0);
        }
    }
}

/// The status made of the three readings.
pub fn collect_system_status(
    volume: (u8, bool),
    battery: (Option<u8>, Option<bool>),
    wifi: (bool, Option<String>),
) -> (r: SystemStatus)
    ensures
        r@ == (SystemStatusView {
            volume_percent: volume.0,
            muted: volume.1,
            battery_percent: battery.0,
            charging: battery.1,
            wifi_up: wifi.0,
            ssid: opt_view(wifi.1),
        }),
{
    let (volume_percent, muted) = volume;
    let (battery_percent, charging) = battery;
    let (wifi_up, ssid) = wifi;
    SystemStatus { volume_percent, muted, battery_percent, charging, wifi_up, ssid }
}

/// The audio output is muted: the volume report mentions `MUTED`, in any case.
pub fn volume_is_muted(report: &str) -> (r: bool)
    ensures
        r == has_infix(uppercase(report@), "MUTED"@),
{
    let up = to_uppercase(report);
    contains_str(up.as_str(), "MUTED")
}

/// A line of `s` starts at position `i`.
pub open spec fn line_start(s: Seq<char>, i: int) -> bool {
    i == 0 || s[i - 1] == '\n'
}

/// The line starting at `i` begins with `yes:` (the active network in `nmcli -t` output).
pub open spec fn active_line_at(s: Seq<char>, i: int) -> bool {
    &&& 0 <= i
    &&& i + 4 <= s.len()
    &&& line_start(s, i)
    &&& s.subrange(i, i + 4) == "yes:"@
}

/// The first position at or after `from` where an active line starts.
pub open spec fn first_active(s: Seq<char>, from: int) -> Option<int>
    decreases s.len() - from,
{
    if from < 0 || from + 4 > s.len() {
        None
    } else if active_line_at(s, from) {
        Some(from)
    } else {
        first_active(s, from + 1)
    }
}

/// The end of the line containing position `k`: the next newline, or the end of `s`.
pub open spec fn line_end(s: Seq<char>, k: int) -> int
    decreases s.len() - k,
{
    if k < 0 || k >= s.len() {
        s.len() as int
    } else if s[k] == '\n' {
        k
    } else {
        line_end(s, k + 1)
    }
}

/// The network name on the first active line of an `nmcli -t -f ACTIVE,SSID dev wifi`
/// listing, trimmed; absent when there is no active line or the name is empty.
pub open spec fn spec_active_ssid(s: Seq<char>) -> Option<Seq<char>> {
    match first_active(s, 0) {
        None => None,
        Some(i) => {
            let t = trim(s.subrange(i + 4, line_end(s, i + 4)));
            if t.len() == 0 {
                None
            } else {
                Some(t)
            }
        },
    }
}

/// The network state from the trimmed output of `nmcli -t -f WIFI g` and of
/// `nmcli -t -f ACTIVE,SSID dev wifi` (`None` where the command failed).
pub open spec fn spec_get_wifi(state: Option<Seq<char>>, list: Option<Seq<char>>) -> (bool, Option<Seq<char>>) {
    if state != Some("enabled"@) {
        (false, None)
    } else {
        (true, spec_active_ssid(match list { Some(l) => l, None => Seq::empty() }))
    }
}

/// The network state from the outputs of the two `nmcli` queries; the listing is only
/// looked at when the radio is enabled.
pub fn get_wifi(state_output: Option<String>, list_output: Option<String>) -> (r: (bool, Option<String>))
    ensures
        (r.0, opt_view(r.1)) == spec_get_wifi(opt_view(state_output), opt_view(list_output)),
{
    let enabled = match &state_output {
        Some(s) => str_eq(s.as_str(), "enabled"),
        None => false,
    };
    proof {
        reveal_strlit("enabled");
    }
    if !enabled {
        return (false, None);
    }
    let list = match list_output {
        Some(l) => l,
        None => String::new(),
    };
    (true, active_ssid(list.as_str()))
}

/// The network name on the first active line of an `nmcli` listing.
pub fn active_ssid(s: &str) -> (r: Option<String>)
    ensures
        opt_view(r) == spec_active_ssid(s@),
{
    let n = char_len(s);
    let mut i: usize = 0;
    while i < n && n - i >= 4
        invariant
            n == s@.len(),
            i <= n,
            first_active(s@, 0) == first_active(s@, i as int),
        decreases n - i,
    {
        proof {
            reveal_strlit("yes:");
        }
        let at_line_start = i == 0 || char_at(s, i - 1) == '\n';
        if at_line_start && matches_at(s, i, "yes:") {
            assert(active_line_at(s@, i as int));
            let mut e: usize = i + 4;
            assert(line_end(s@, i + 4) == line_end(s@, e as int));
            while e < n && char_at(s, e) != '\n'
                invariant
                    n == s@.len(),
                    i + 4 <= e <= n,
                    line_end(s@, i + 4) == line_end(s@, e as int),
                decreases n - e,
            {
                e = e + 1;
            }
            assert(line_end(s@, e as int) == e);
            assert(first_active(s@, i as int) == Some(i as int));
            let rest = slice_chars(s, i + 4, e);
            let t = trim_str(rest.as_str());
            if char_len(t.as_str()) == 0 {
                return None;
            } else {
                return Some(t);
            }
        }
        i = i + 1;
    }
    None
}

/// A power-supply entry whose name starts with `BAT` describes a battery.
pub fn is_battery_name(name: &str) -> (r: bool)
    ensures
        r == ("BAT"@.len() <= name@.len() && name@.subrange(0, "BAT"@.len() as int) == "BAT"@),
{
    starts_with(name, "BAT")
}

/// An ASCII decimal digit.
pub open spec fn is_digit(c: char) -> bool {
    48 <= (c as u32) <= 57
}

/// Every character of `d` is a decimal digit.
pub open spec fn all_digits(d: Seq<char>) -> bool {
    forall|i: int| 0 <= i < d.len() ==> is_digit(#[trigger] d[i])
}

/// The digits of an unsigned number: `s` without a leading `+`.
pub open spec fn unsigned_digits(s: Seq<char>) -> Seq<char> {
    if s.len() > 0 && s[0] == '+' {
        s.drop_first()
    } else {
        s
    }
}

/// The number that a string of decimal digits denotes.
pub open spec fn digits_value(d: Seq<char>) -> int
    decreases d.len(),
{
    if d.len() == 0 {
        0
    } else {
        digits_value(d.drop_last()) * 10 + (d.last() as u32 - 48)
    }
}

/// What `u8::from_str` returns for `s`: an optional `+`, then at least one decimal digit,
/// denoting at most 255.
pub open spec fn spec_parse_u8(s: Seq<char>) -> Option<u8> {
    let d = unsigned_digits(s);
    if d.len() == 0 || !all_digits(d) || digits_value(d) > 255 {
        None
    } else {
        Some(digits_value(d) as u8)
    }
}

proof fn lemma_digits_value_nonneg(d: Seq<char>)
    requires
        forall|i: int| 0 <= i < d.len() ==> is_digit(#[trigger] d[i]),
    ensures
        digits_value(d) >= 0,
    decreases d.len(),
{
    if d.len() > 0 {
        let e = d.drop_last();
        assert forall|i: int| 0 <= i < e.len() implies is_digit(#[trigger] e[i]) by {
            assert(e[i] == d[i]);
        }
        lemma_digits_value_nonneg(e);
    }
}

/// `s` read as a `u8` the way `u8::from_str` reads it.
pub fn parse_u8(s: &str) -> (r: Option<u8>)
    ensures
        r == spec_parse_u8(s@),
{
    let n = char_len(s);
    if n == 0 {
        return None;
    }
    let start: usize = if char_at(s, 0) == '+' { 1 } else { 0 };
    let ghost d = unsigned_digits(s@);
    assert(d =~= s@.subrange(start as int, n as int));
    if start == n {
        return None;
    }
    let mut acc: u32 = 0;
    let mut k: usize = start;
    while k < n
        invariant
            n == s@.len(),
            start <= k <= n,
            d == s@.subrange(start as int, n as int),
            d == unsigned_digits(s@),
            start == 0 || start == 1,
            start == 1 <==> (s@.len() > 0 && s@[0] == '+'),
            forall|i: int| start <= i < k ==> is_digit(#[trigger] s@[i]),
            acc as int == if digits_value(s@.subrange(start as int, k as int)) < 256 {
                digits_value(s@.subrange(start as int, k as int))
            } else {
                256
            },
        decreases n - k,
    {
        let c = char_at(s, k);
        let u = c as u32;
        if u < 48 || u > 57 {
            assert(d[k - start] == c);
            assert(!is_digit(d[k - start]));
            return None;
        }
        let ghost pre = s@.subrange(start as int, k as int);
        let ghost next = s@.subrange(start as int, k + 1);
        proof {
            assert(next.drop_last() =~= pre);
            assert forall|i: int| 0 <= i < pre.len() implies is_digit(#[trigger] pre[i]) by {
                assert(pre[i] == s@[start + i]);
            }
            lemma_digits_value_nonneg(pre);
        }
        let dig = u - 48;
        if acc >= 256 {
            acc = 256;
        } else {
            let v = acc * 10 + dig;
            acc = if v >= 256 { 256 } else { v };
        }
        k = k + 1;
    }
    assert(s@.subrange(start as int, n as int) == d);
    assert forall|i: int| 0 <= i < d.len() implies is_digit(#[trigger] d[i]) by {
        assert(d[i] == s@[start + i]);
    }
    if acc >= 256 {
        None
    } else {
        Some(acc as u8)
    }
}

/// The battery is charging or full, by its status file (trimmed, any case).
pub fn charging_from_status(status: &str) -> (r: bool)
    ensures
        r == (lowercase(trim(status@)) == "charging"@ || lowercase(trim(status@)) == "full"@),
{
    let t = trim_str(status);
    let low = to_lowercase(t.as_str());
    str_eq(low.as_str(), "charging") || str_eq(low.as_str(), "full")
}

/// The battery reading from the contents of its `capacity` and `status` files
/// (`None` where a file could not be read).
pub fn get_battery(capacity: Option<String>, status: Option<String>) -> (r: (Option<u8>, Option<bool>))
    ensures
        r.0 == match capacity { Some(c) => spec_parse_u8(trim(c@)), None => None },
        r.1 == match status {
            Some(s) => Some(lowercase(trim(s@)) == "charging"@ || lowercase(trim(s@)) == "full"@),
            None => None,
        },
{
    let cap = match &capacity {
        Some(c) => {
            let t = trim_str(c.as_str());
            parse_u8(t.as_str())
        },
        None => None,
    };
    let charging = match &status {
        Some(s) => Some(charging_from_status(s.as_str())),
        None => None,
    };
    (cap, charging)
}

} // verus!
