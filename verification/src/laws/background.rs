//! Background running: the daemon, and the entry that starts it.

use crate::autostart::{
    complaint, daemon_args, dir, entry, entry_path, exec_line, heal, is_enabled, is_obsolete, join,
    remove_autostart_entries, removed, set_enabled, AutostartChange, AutostartStep, EntryRead,
    Removal,
};
use crate::config::{
    applet_on_panel, handler_view, is_military_time, panel_config_name, Panel, Schedule, Settings,
    Store,
};
use crate::daemon::{
    applied_message, daemon_start, foreground_vt, pass_start, run_pass,
    wait_for_session_foreground, PassStart, SessionWait,
};
use crate::deferral::{deferral, ScheduleDeferral};
use crate::host::HostSetup;
use crate::record::TintState;
use crate::scan::contains;
use crate::text::{
    decimal, decimal_value, lemma_decimal,
    optional_view, parse_undoes_decimal, parse_unsigned, string_views, trim,
};
use crate::tick::{decide, Moment};
use vstd::prelude::*;

verus! {

// ---------------------------------------------------------------------------
// The daemon
// ---------------------------------------------------------------------------
/// **Law.** Only a managed daemon ever stands down: where another holds its slot,
/// where the switch is off, or where the applet is known to keep the schedule.
pub proof fn only_a_managed_daemon_stands_down(
    managed: bool,
    taken: bool,
    started: bool,
    enabled: bool,
    applet: Option<bool>,
    start: PassStart,
)
    requires
        call_ensures(daemon_start, (managed, taken), started),
        call_ensures(pass_start, (managed, enabled, applet), start),
    ensures
        !started <==> managed && taken,
        start == PassStart::TurnedOff <==> managed && !enabled,
        start == PassStart::Redundant <==> managed && enabled && applet == Some(true),
        start == PassStart::Run <==> !managed || (enabled && applet != Some(true)),
{
}

/// **Law.** A pass makes the tick's decisions over what the store holds, stores
/// them, and wants what the settings it is left with ask for.
pub proof fn a_pass_decides_over_the_store(
    handler: &mut Option<Store>,
    setup: HostSetup,
    moment: Moment,
    wanted: (TintState, Settings),
    other: &mut Option<Store>,
    settings: &mut Settings,
    stored: Settings,
    state: TintState,
)
    requires
        call_ensures(run_pass, (handler, setup, moment), wanted),
        call_ensures(Settings::load_from, (&*old(handler),), stored),
        handler_view(*old(other)) == handler_view(*old(handler)),
        *old(settings) == stored,
        call_ensures(decide, (other, settings, setup, moment), ()),
        call_ensures(Settings::desired_at, (&*final(settings), moment), state),
    ensures
        wanted.1 == *final(settings),
        wanted.0 == state,
        handler_view(*final(handler)) == handler_view(*final(other)),
{
}

/// **Law.** Without a setup a schedule in force is parked; with one, a parked one
/// comes back. Otherwise there is nothing to change.
pub proof fn a_deferral_parks_or_restores(
    ready: bool,
    schedule: Schedule,
    parked: Option<Schedule>,
    next: Option<ScheduleDeferral>,
)
    requires
        call_ensures(deferral, (ready, schedule, parked), next),
    ensures
        !ready ==> (next is Some <==> schedule != Schedule::Manual),
        ready ==> (next is Some <==> parked is Some),
        next matches Some(d) ==> !ready ==> d.schedule == Schedule::Manual && d.deferred == Some(
            schedule,
        ),
        next matches Some(d) ==> ready ==> Some(d.schedule) == parked && d.deferred is None,
{
}

/// **Law.** What was applied is said: the temperature, or that the tint is gone.
pub proof fn what_was_applied_is_said(state: TintState, line: String)
    requires
        call_ensures(applied_message, (state,), line),
    ensures
        state is None ==> line@ == "cosmic-nightlight: cleared tint"@,
        state matches Some(kelvin) ==> {
            let n = line@.len() as int;
            &&& n > 28
            &&& line@.take(27) == "cosmic-nightlight: applied "@
            &&& line@[n - 1] == 'K'
            &&& decimal_value(line@.subrange(27, n - 1)) == kelvin
        },
{
    reveal_strlit("cosmic-nightlight: applied ");
    reveal_strlit("K");
    if state is Some {
        let digits = decimal((state->0) as nat);
        lemma_decimal((state->0) as nat);
        let n = line@.len() as int;
        assert(line@ =~= "cosmic-nightlight: applied "@ + digits + "K"@);
        assert(line@.take(27) =~= "cosmic-nightlight: applied "@);
        assert(line@.subrange(27, n - 1) =~= digits);
    }
}

/// **Law.** The foreground terminal is the number after `tty`; a text that does not
/// start with it names none.
pub proof fn the_foreground_terminal_is_its_number(
    active: Option<String>,
    number: u32,
    vt: Option<u32>,
)
    requires
        call_ensures(foreground_vt, (&active,), vt),
    ensures
        active is None ==> vt is None,
        active is Some && trim((active->0)@) == "tty"@ + decimal(number as nat) ==> vt == Some(
            number,
        ),
        active is Some && (trim((active->0)@).len() < 3 || trim((active->0)@).take(3) != "tty"@)
            ==> vt is None,
        vt matches Some(n) ==> active is Some && trim((active->0)@).len() > 3 && trim(
            (active->0)@,
        ).take(3) == "tty"@ && parse_unsigned(trim((active->0)@).skip(3), u32::MAX as nat) == Some(
            n as nat,
        ),
{
    reveal_strlit("tty");
    if active is Some {
        let text = trim((active->0)@);
        if text == "tty"@ + decimal(number as nat) {
            assert(text.take(3) =~= "tty"@);
            assert(text.skip(3) =~= decimal(number as nat));
            parse_undoes_decimal(number as nat, u32::MAX as nat);
        }
        if text.len() == 3 {
            assert(text.skip(3).len() == 0);
        }
    }
}

/// **Law.** The daemon waits exactly while its session is known, is not in the
/// foreground, and a minute has not gone by.
pub proof fn the_session_is_waited_for_a_minute(
    session: Option<String>,
    active: Option<String>,
    waited_ms: u64,
    wait: SessionWait,
    foreground: Option<u32>,
    ours: u32,
)
    requires
        call_ensures(wait_for_session_foreground, (&session, &active, waited_ms), wait),
        call_ensures(foreground_vt, (&active,), foreground),
    ensures
        session is None ==> wait == SessionWait::Ready,
        session is Some && parse_unsigned((session->0)@, u32::MAX as nat) is None ==> wait
            == SessionWait::Ready,
        session is Some && (session->0)@ == decimal(ours as nat) ==> {
            &&& wait == SessionWait::Ready <==> foreground == Some(ours)
            &&& wait == SessionWait::TimedOut <==> foreground != Some(ours) && waited_ms >= 60_000
            &&& wait == SessionWait::Wait <==> foreground != Some(ours) && waited_ms < 60_000
        },
{
    parse_undoes_decimal(ours as nat, u32::MAX as nat);
}

// ---------------------------------------------------------------------------
// The panel
// ---------------------------------------------------------------------------
/// Whether a list of ids holds ours.
pub open spec fn holds_ours(ids: Seq<String>) -> bool {
    exists|i: int| 0 <= i < ids.len() && (#[trigger] ids[i])@ == "io.github.cosmic_nightlight"@
}

proof fn lemma_holds_ours(ids: Seq<String>)
    ensures
        crate::config::lists_applet(ids) == holds_ours(ids),
{
    let views = string_views(ids);
    if views.contains("io.github.cosmic_nightlight"@) {
        let i = views.index_of("io.github.cosmic_nightlight"@);
        assert(ids[i]@ == views[i]);
    }
    if holds_ours(ids) {
        let i = choose|i: int|
            0 <= i < ids.len() && (#[trigger] ids[i])@ == "io.github.cosmic_nightlight"@;
        assert(views[i] == ids[i]@);
    }
}

/// **Law.** The applet is on a panel if any panel that could be read lists it in
/// its middle or in either wing, and cannot be told where the panels cannot.
pub proof fn the_applet_is_where_a_panel_lists_it(
    panels: Option<Vec<Option<Panel>>>,
    present: Option<bool>,
    at: int,
)
    requires
        call_ensures(applet_on_panel, (&panels,), present),
    ensures
        present is None <==> panels is None,
        panels is Some && 0 <= at < (panels->0).len() && ((panels->0)@[at] matches Some(panel) && ((
        panel.center is Some && holds_ours((panel.center->0)@)) || (panel.wings is Some && (
        holds_ours((panel.wings->0).0@) || holds_ours((panel.wings->0).1@))))) ==> present == Some(
            true,
        ),
        panels is Some && (forall|i: int|
            0 <= i < (panels->0).len() ==> (#[trigger] (panels->0)@[i] matches Some(panel) ==> (
            panel.center is Some ==> !holds_ours((panel.center->0)@)) && (panel.wings is Some
                ==> !holds_ours((panel.wings->0).0@) && !holds_ours((panel.wings->0).1@))))
            ==> present == Some(false),
{
    assert forall|ids: Seq<String>| #[trigger]
        crate::config::lists_applet(ids) == holds_ours(ids) by {
        lemma_holds_ours(ids);
    }
    if panels is Some {
        let all = (panels->0)@;
        if 0 <= at < all.len() && crate::config::shows_applet(all[at]) {
            assert(crate::config::any_shows_applet(all));
        }
        if crate::config::any_shows_applet(all) {
            let i = choose|i: int|
                0 <= i < all.len() && crate::config::shows_applet(#[trigger] all[i]);
            assert(all[i] is Some);
        }
    }
}

/// **Law.** A panel's config is named after the panel, and the clock is a 24-hour
/// one only where that is stored.
pub proof fn a_panel_is_configured_under_its_name(
    entry: &str,
    name: String,
    stored: Option<bool>,
    military: bool,
)
    requires
        call_ensures(panel_config_name, (entry,), name),
        call_ensures(is_military_time, (stored,), military),
    ensures
        name@ == "com.system76.CosmicPanel."@ + entry@,
        military <==> stored == Some(true),
{
}

// ---------------------------------------------------------------------------
// The entry
// ---------------------------------------------------------------------------
/// **Law.** The entry starts a managed daemon, re-entering the sandbox where there
/// is one, stays out of the launcher and carries the marker.
pub proof fn the_entry_starts_a_managed_daemon(
    in_flatpak: bool,
    line: String,
    text: String,
    args: Vec<String>,
)
    requires
        call_ensures(exec_line, (in_flatpak,), line),
        call_ensures(entry, (in_flatpak,), text),
        call_ensures(daemon_args, (), args),
    ensures
        !in_flatpak ==> line@ == "cosmic-nightlight --daemon "@ + "--managed"@,
        in_flatpak ==> line@ == "flatpak run --command=cosmic-nightlight "@
            + "io.github.cosmic_nightlight"@ + " --daemon "@ + "--managed"@,
        text@
            == "[Desktop Entry]\nType=Application\nName=Night Light (background)\nComment=Keeps the night light schedule while the applet is off the panel\nExec="@
            + line@
            + "\nTerminal=false\nNoDisplay=true\nX-GNOME-Autostart-enabled=true\n"@
            + "X-CosmicNightlight-Autostart=true"@ + "\n"@,
        string_views(args@) == seq!["--daemon"@, "--managed"@],
{
}

/// **Law.** Background running is on exactly where the entry can be read and
/// carries the marker. Such an entry is rewritten exactly where it differs from
/// what this build writes, and then to that; one that was read without the marker
/// is obsolete, and nothing else is.
pub proof fn the_marker_decides(
    current: Option<String>,
    in_flatpak: bool,
    enabled: bool,
    text: String,
    rewritten: Option<String>,
    found: EntryRead,
    obsolete: bool,
)
    requires
        call_ensures(is_enabled, (&current,), enabled),
        call_ensures(entry, (in_flatpak,), text),
        call_ensures(heal, (&current, in_flatpak), rewritten),
        call_ensures(is_obsolete, (&found,), obsolete),
    ensures
        enabled <==> current is Some && contains(
            (current->0)@,
            "X-CosmicNightlight-Autostart=true"@,
        ),
        rewritten is Some <==> enabled && (current->0)@ != text@,
        rewritten matches Some(new) ==> new@ == text@,
        obsolete <==> (found matches EntryRead::Text(read) && !contains(
            read@,
            "X-CosmicNightlight-Autostart=true"@,
        )),
{
}

/// **Law.** A name is put after a path with exactly one slash in between, and after
/// an empty one as it is.
pub proof fn a_name_is_joined_by_one_slash(base: &str, name: &str, path: String)
    requires
        call_ensures(join, (base, name), path),
    ensures
        base@.len() == 0 ==> path@ == name@,
        base@.len() > 0 && base@.last() != '/' ==> path@ == base@ + seq!['/'] + name@,
        base@.len() > 0 && base@.last() == '/' ==> path@ == base@ + name@,
{
    reveal_strlit("/");
    assert("/"@ =~= seq!['/']);
}

/// **Law.** The autostart directory is under the config home where one is named,
/// else under `.config` at home, and nowhere without either. An entry lies in it
/// under its app's id.
pub proof fn the_entry_lies_under_the_config_home(
    config_home: Option<String>,
    home: Option<String>,
    place: Option<String>,
    base: &str,
    inner: &str,
    plain: String,
    under: String,
    deep: String,
    app_id: &str,
    file: &str,
    path: String,
    joined: String,
)
    requires
        call_ensures(dir, (&config_home, &home), place),
        call_ensures(join, (base, "autostart"), plain),
        call_ensures(join, (base, ".config"), under),
        inner@ == under@,
        call_ensures(join, (inner, "autostart"), deep),
        call_ensures(entry_path, (base, app_id), path),
        file@ == app_id@ + ".desktop"@,
        call_ensures(join, (base, file), joined),
    ensures
        ({
            let named = config_home is Some && (config_home->0)@.len() > 0;
            &&& named && (config_home->0)@ == base@ ==> optional_view(place) == Some(plain@)
            &&& !named && home is Some && (home->0)@ == base@ ==> optional_view(place) == Some(
                deep@,
            )
            &&& !named && home is None ==> place is None
        }),
        path@ == joined@,
{
}

/// **Law.** Turning background running off removes our entry; turning it on writes
/// what this build writes to it. There has to be somewhere to do that.
pub proof fn the_switch_removes_or_installs_our_entry(
    enabled: bool,
    place: Option<String>,
    in_flatpak: bool,
    change: Result<AutostartChange, String>,
    base: &str,
    path: String,
    text: String,
)
    requires
        call_ensures(set_enabled, (enabled, &place, in_flatpak), change),
        place is Some ==> base@ == (place->0)@,
        call_ensures(entry_path, (base, "io.github.cosmic_nightlight"), path),
        call_ensures(entry, (in_flatpak,), text),
    ensures
        place is None ==> (change matches Err(message) && message@
            == "no home directory to write an autostart entry to"@),
        place is Some ==> {
            &&& change is Ok
            &&& !enabled ==> (change->Ok_0 matches AutostartChange::Remove(p) && p@ == path@)
            &&& enabled ==> (change->Ok_0 matches AutostartChange::Install {
                dir: d,
                path: p,
                text: t,
            } && d@ == base@ && p@ == path@ && t@ == text@)
        },
{
}

/// **Law.** The cleanup removes what is obsolete of our entry and of the one from
/// before the rename, by their paths, and nothing without a directory.
pub proof fn the_cleanup_removes_the_obsolete_ones(
    place: Option<String>,
    ours: EntryRead,
    renamed: EntryRead,
    paths: Vec<String>,
    first: bool,
    second: bool,
    base: &str,
    path: String,
    old_path: String,
)
    requires
        call_ensures(remove_autostart_entries, (&place, &ours, &renamed), paths),
        call_ensures(is_obsolete, (&ours,), first),
        call_ensures(is_obsolete, (&renamed,), second),
        place is Some ==> base@ == (place->0)@,
        call_ensures(entry_path, (base, "io.github.cosmic_nightlight"), path),
        call_ensures(entry_path, (base, "io.github.cosmic_nightshift"), old_path),
    ensures
        place is None ==> paths.len() == 0,
        place is Some && first && second ==> string_views(paths@) == seq![path@, old_path@],
        place is Some && first && !second ==> string_views(paths@) == seq![path@],
        place is Some && !first && second ==> string_views(paths@) == seq![old_path@],
        place is Some && !first && !second ==> paths.len() == 0,
{
    let views = string_views(paths@);
    assert(views.len() == paths.len());
    if place is Some {
        if first && second {
            assert(views =~= seq![path@, old_path@]);
        } else if first {
            assert(views =~= seq![path@]);
        } else if second {
            assert(views =~= seq![old_path@]);
        } else {
            assert(views =~= Seq::<Seq<char>>::empty());
        }
    }
}

/// **Law.** Only a removal that failed is a failure; what failed is said, with what
/// it was about and why.
pub proof fn a_failed_step_is_explained(
    step: AutostartStep,
    place: &str,
    error: &str,
    text: String,
    removal: Removal,
    result: Result<(), String>,
)
    requires
        call_ensures(complaint, (step, place, error), text),
        call_ensures(removed, (place, &removal), result),
    ensures
        step == AutostartStep::Remove ==> text@ == "could not remove "@ + place@ + ": "@ + error@,
        step == AutostartStep::CreateDirectory ==> text@ == "could not create "@ + place@ + ": "@
            + error@,
        step == AutostartStep::Write ==> text@ == "could not write "@ + place@ + ": "@ + error@,
        step == AutostartStep::FindProgram ==> text@ == "could not find our own binary to start: "@
            + error@,
        step == AutostartStep::StartDaemon ==> text@ == "could not start the background process: "@
            + error@,
        result is Err <==> removal is Failed,
        removal matches Removal::Failed(why) ==> (result matches Err(message) && message@
            == "could not remove "@ + place@ + ": "@ + why@),
{
}

} // verus!
