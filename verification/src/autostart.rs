//! "Run in Background": the autostart entry that keeps the headless daemon
//! running, and the cleanup of entries that earlier releases left behind.
//!
//! The entry is the single source of truth for whether background running is on.
//! Entries written by this version carry a marker, which tells them apart from
//! the unconditional ones an old "Start on login" toggle wrote under the same
//! name.

use crate::config::APP_ID;
use crate::scan::{contains, contains_text, lemma_contains_middle};
use crate::text::{chars_of, optional_view, same_text, string_views};
use vstd::prelude::*;

verus! {

/// Marks a daemon as the one this setting manages, as opposed to one started by
/// the systemd unit or by hand. Only a managed daemon exits when the setting is
/// turned off.
pub const MANAGED_FLAG: &'static str = "--managed";

/// Key stamped into entries this version writes, marking them as deliberate.
pub const MARKER: &'static str = "X-CosmicNightlight-Autostart=true";

/// The app ids entries have been written under: ours, and the one from before a
/// rename, whose entry nothing since has been able to see.
pub const APP_IDS: [&'static str; 2] = [
    "io.github.cosmic_nightlight",
    "io.github.cosmic_nightshift",
];

// ---------------------------------------------------------------------------
// The entry
// ---------------------------------------------------------------------------
/// What the entry runs.
pub open spec fn exec_text(in_flatpak: bool) -> Seq<char> {
    if in_flatpak {
        "flatpak run --command=cosmic-nightlight "@ + APP_ID@ + " --daemon "@ + MANAGED_FLAG@
    } else {
        "cosmic-nightlight --daemon "@ + MANAGED_FLAG@
    }
}

/// The desktop entry up to what it runs.
pub const ENTRY_HEAD: &'static str =
    "[Desktop Entry]\nType=Application\nName=Night Light (background)\nComment=Keeps the night light schedule while the applet is off the panel\nExec=";

/// The desktop entry between what it runs and the marker.
pub const ENTRY_TAIL: &'static str =
    "\nTerminal=false\nNoDisplay=true\nX-GNOME-Autostart-enabled=true\n";

/// The desktop entry that is installed.
pub open spec fn entry_text(in_flatpak: bool) -> Seq<char> {
    ENTRY_HEAD@ + exec_text(in_flatpak) + ENTRY_TAIL@ + MARKER@ + "\n"@
}

/// Whether an entry is one of ours.
pub open spec fn is_marked(entry: Seq<char>) -> bool {
    contains(entry, MARKER@)
}

/// Whether what is installed turns background running on.
pub open spec fn is_on(current: Option<Seq<char>>) -> bool {
    current is Some && is_marked(current->0)
}

/// What an installed entry is rewritten to, if it is to be rewritten at all.
pub open spec fn healed(current: Option<Seq<char>>, in_flatpak: bool) -> Option<Seq<char>> {
    if is_on(current) && current->0 != entry_text(in_flatpak) {
        Some(entry_text(in_flatpak))
    } else {
        None
    }
}

/// What the entry runs: the plain binary, or, from inside a flatpak, what
/// re-enters the sandbox, since the entry lands on the host.
pub fn exec_line(in_flatpak: bool) -> (line: String)
    ensures
        line@ == exec_text(in_flatpak),
{
    if in_flatpak {
        "flatpak run --command=cosmic-nightlight ".to_owned().concat(APP_ID).concat(
            " --daemon ",
        ).concat(MANAGED_FLAG)
    } else {
        "cosmic-nightlight --daemon ".to_owned().concat(MANAGED_FLAG)
    }
}

/// The desktop entry to install. It stays out of the launcher: it is a
/// background process, not something to launch by hand.
pub fn entry(in_flatpak: bool) -> (text: String)
    ensures
        text@ == entry_text(in_flatpak),
{
    ENTRY_HEAD.to_owned().concat(exec_line(in_flatpak).as_str()).concat(ENTRY_TAIL).concat(
        MARKER,
    ).concat("\n")
}

/// Whether an autostart entry of ours is installed, given what the entry holds;
/// `None` where it cannot be read. One without the marker does not count.
pub fn is_enabled(current: &Option<String>) -> (enabled: bool)
    ensures
        enabled == is_on(optional_view(*current)),
{
    match current {
        Some(text) => contains_text(text.as_str(), MARKER),
        None => false,
    }
}

/// What to rewrite the installed entry to, if it is ours and no longer says what
/// this version would write. An entry outlives the release that wrote it and is
/// executed at login, so a stale command line is not cosmetic.
pub fn heal(current: &Option<String>, in_flatpak: bool) -> (rewritten: Option<String>)
    ensures
        optional_view(rewritten) == healed(optional_view(*current), in_flatpak),
{
    if !is_enabled(current) {
        return None;
    }
    let wanted = entry(in_flatpak);
    if let Some(text) = current {
        if same_text(text.as_str(), wanted.as_str()) {
            return None;
        }
    }
    Some(wanted)
}

/// What was found where an entry may be.
#[derive(Debug)]
pub enum EntryRead {
    Text(String),
    NotFound,
    /// There is something, and it could not be read.
    Unreadable,
}

/// An [`EntryRead`] as plain data.
pub enum EntryView {
    Text(Seq<char>),
    NotFound,
    Unreadable,
}

impl View for EntryRead {
    type V = EntryView;

    open spec fn view(&self) -> EntryView {
        match *self {
            EntryRead::Text(text) => EntryView::Text(text@),
            EntryRead::NotFound => EntryView::NotFound,
            EntryRead::Unreadable => EntryView::Unreadable,
        }
    }
}

/// Whether what was found is the old toggle's entry.
pub open spec fn obsolete(found: EntryView) -> bool {
    match found {
        EntryView::Text(text) => !is_marked(text),
        _ => false,
    }
}

/// Whether an entry is the old toggle's and is to be removed. One that carries
/// the marker is a live setting. One that cannot be read may be, so it is left
/// alone.
pub fn is_obsolete(found: &EntryRead) -> (is: bool)
    ensures
        is == obsolete(found@),
{
    match found {
        EntryRead::Text(text) => !contains_text(text.as_str(), MARKER),
        EntryRead::NotFound => false,
        EntryRead::Unreadable => false,
    }
}

/// Every entry this version writes carries the marker.
proof fn lemma_entry_is_marked(in_flatpak: bool)
    ensures
        is_marked(entry_text(in_flatpak)),
{
    lemma_contains_middle(
        ENTRY_HEAD@ + exec_text(in_flatpak) + ENTRY_TAIL@,
        MARKER@,
        "\n"@,
    );
}

/// **Law.** An entry this version wrote turns background running on, whichever
/// build wrote it, so the cleanup of obsolete entries leaves it alone; and its
/// own build finds nothing in it to rewrite.
pub proof fn our_own_entry_survives(in_flatpak: bool)
    ensures
        is_on(Some(entry_text(in_flatpak))),
        healed(Some(entry_text(in_flatpak)), in_flatpak) is None,
{
    lemma_entry_is_marked(in_flatpak);
}

/// **Law.** Healing changes what an entry says, never whether background running
/// is on, and leaves nothing to heal.
pub proof fn healing_keeps_the_setting(current: Option<Seq<char>>, in_flatpak: bool)
    ensures
        ({
            let after = if healed(current, in_flatpak) is Some {
                healed(current, in_flatpak)
            } else {
                current
            };
            &&& is_on(after) == is_on(current)
            &&& healed(after, in_flatpak) is None
        }),
{
    lemma_entry_is_marked(in_flatpak);
}

// ---------------------------------------------------------------------------
// Where it lives
// ---------------------------------------------------------------------------
/// A path with a relative name put after it.
pub open spec fn joined(base: Seq<char>, name: Seq<char>) -> Seq<char> {
    if base.len() == 0 {
        name
    } else if base.last() == '/' {
        base + name
    } else {
        base + "/"@ + name
    }
}

/// Puts a relative name after a path.
pub fn join(base: &str, name: &str) -> (path: String)
    ensures
        path@ == joined(base@, name@),
{
    let chars = chars_of(base);
    if chars.len() == 0 {
        name.to_owned()
    } else if chars[chars.len() - 1] == '/' {
        base.to_owned().concat(name)
    } else {
        base.to_owned().concat("/").concat(name)
    }
}

/// The autostart directory: `$XDG_CONFIG_HOME/autostart`, falling back to
/// `$HOME/.config/autostart`.
pub open spec fn autostart_dir(config_home: Option<Seq<char>>, home: Option<Seq<char>>) -> Option<
    Seq<char>,
> {
    if config_home is Some && (config_home->0).len() > 0 {
        Some(joined(config_home->0, "autostart"@))
    } else {
        match home {
            Some(h) => Some(joined(joined(h, ".config"@), "autostart"@)),
            None => None,
        }
    }
}

/// The autostart directory, given what `XDG_CONFIG_HOME` and `HOME` hold.
pub fn dir(config_home: &Option<String>, home: &Option<String>) -> (path: Option<String>)
    ensures
        optional_view(path) == autostart_dir(optional_view(*config_home), optional_view(*home)),
{
    if let Some(base) = config_home {
        if !base.as_str().is_empty() {
            return Some(join(base.as_str(), "autostart"));
        }
    }
    match home {
        Some(base) => Some(join(join(base.as_str(), ".config").as_str(), "autostart")),
        None => None,
    }
}

/// The path of the entry for one app id.
pub fn entry_path(dir: &str, app_id: &str) -> (path: String)
    ensures
        path@ == entry_file(dir@, app_id@),
{
    let name = app_id.to_owned().concat(".desktop");
    join(dir, name.as_str())
}

// ---------------------------------------------------------------------------
// Cleaning up
// ---------------------------------------------------------------------------
/// The path of the entry for one app id.
pub open spec fn entry_file(dir: Seq<char>, app_id: Seq<char>) -> Seq<char> {
    joined(dir, app_id + ".desktop"@)
}

/// The obsolete ones of the two entries there may be, by their paths.
pub open spec fn obsolete_files(dir: Seq<char>, ours: EntryView, renamed: EntryView) -> Seq<
    Seq<char>,
> {
    (if obsolete(ours) {
        seq![entry_file(dir, APP_IDS[0]@)]
    } else {
        seq![]
    }) + (if obsolete(renamed) {
        seq![entry_file(dir, APP_IDS[1]@)]
    } else {
        seq![]
    })
}

/// The entries to remove from the autostart directory, given what was found
/// under each of [`APP_IDS`]. Without such a directory there are none.
pub fn remove_autostart_entries(
    dir: &Option<String>,
    ours: &EntryRead,
    renamed: &EntryRead,
) -> (paths: Vec<String>)
    ensures
        string_views(paths@) == (match *dir {
            Some(base) => obsolete_files(base@, ours@, renamed@),
            None => seq![],
        }),
{
    let mut paths: Vec<String> = Vec::new();
    if let Some(base) = dir {
        if is_obsolete(ours) {
            paths.push(entry_path(base.as_str(), APP_IDS[0]));
        }
        if is_obsolete(renamed) {
            paths.push(entry_path(base.as_str(), APP_IDS[1]));
        }
    }
    assert(string_views(paths@) =~= match *dir {
        Some(base) => obsolete_files(base@, ours@, renamed@),
        None => seq![],
    });
    paths
}

/// What is found at each path once the obsolete entries of `dir` are removed,
/// where `files` is what was found there before.
pub open spec fn cleaned(
    dir: Seq<char>,
    files: spec_fn(Seq<char>) -> EntryView,
) -> spec_fn(Seq<char>) -> EntryView {
    |path: Seq<char>|
        if obsolete_files(
            dir,
            files(entry_file(dir, APP_IDS[0]@)),
            files(entry_file(dir, APP_IDS[1]@)),
        ).contains(path) {
            EntryView::NotFound
        } else {
            files(path)
        }
}

/// What an entry holds, if it can be read.
pub open spec fn held(found: EntryView) -> Option<Seq<char>> {
    match found {
        EntryView::Text(text) => Some(text),
        _ => None,
    }
}

proof fn lemma_cleaned(
    dir: Seq<char>,
    files: spec_fn(Seq<char>) -> EntryView,
    path: Seq<char>,
)
    ensures
        cleaned(dir, files)(path) == (if (path == entry_file(dir, APP_IDS[0]@) || path
            == entry_file(dir, APP_IDS[1]@)) && obsolete(files(path)) {
            EntryView::NotFound
        } else {
            files(path)
        }),
{
    let first = entry_file(dir, APP_IDS[0]@);
    let second = entry_file(dir, APP_IDS[1]@);
    let gone = obsolete_files(dir, files(first), files(second));
    if obsolete(files(first)) {
        assert(gone[0] == first);
    }
    if obsolete(files(second)) {
        assert(gone[gone.len() - 1] == second);
    }
    if gone.contains(path) {
        let i = gone.index_of(path);
        assert(gone[i] == path);
    }
}

/// **Law.** The cleanup removes both obsolete entries and nothing else: an entry
/// that was read and lacks the marker is gone, one that carries it or could not
/// be read is left as it was, and so is every other file. Whether background
/// running is on does not change, and cleaning up again changes nothing.
pub proof fn the_cleanup_removes_only_what_is_obsolete(
    dir: Seq<char>,
    files: spec_fn(Seq<char>) -> EntryView,
)
    ensures
        ({
            let after = cleaned(dir, files);
            let first = entry_file(dir, APP_IDS[0]@);
            let second = entry_file(dir, APP_IDS[1]@);
            let ours = entry_file(dir, APP_ID@);
            &&& forall|path: Seq<char>| #[trigger]
                after(path) == (if (path == first || path == second) && obsolete(files(path)) {
                    EntryView::NotFound
                } else {
                    files(path)
                })
            &&& is_on(held(after(ours))) == is_on(held(files(ours)))
            &&& obsolete_files(dir, after(first), after(second)) == Seq::<Seq<char>>::empty()
            &&& forall|path: Seq<char>| #[trigger] cleaned(dir, after)(path) == after(path)
        }),
{
    let after = cleaned(dir, files);
    let first = entry_file(dir, APP_IDS[0]@);
    let second = entry_file(dir, APP_IDS[1]@);
    assert forall|path: Seq<char>| #[trigger]
        after(path) == (if (path == first || path == second) && obsolete(files(path)) {
            EntryView::NotFound
        } else {
            files(path)
        }) by {
        lemma_cleaned(dir, files, path);
    }
    lemma_cleaned(dir, files, first);
    lemma_cleaned(dir, files, second);
    lemma_cleaned(dir, files, entry_file(dir, APP_ID@));
    assert(obsolete_files(dir, after(first), after(second)) =~= Seq::<Seq<char>>::empty());
    assert forall|path: Seq<char>| #[trigger] cleaned(dir, after)(path) == after(path) by {
        lemma_cleaned(dir, after, path);
        lemma_cleaned(dir, files, path);
    }
}

// ---------------------------------------------------------------------------
// Turning it on and off
// ---------------------------------------------------------------------------
/// What is said where there is nowhere to put an entry.
pub const NO_HOME: &'static str = "no home directory to write an autostart entry to";

/// What turning background running on or off takes.
#[derive(Debug)]
pub enum AutostartChange {
    /// Remove this entry. The running daemon notices within a tick and exits on
    /// its own.
    Remove(String),
    /// Make this directory, write this text to this path in it, and start a
    /// daemon: the entry alone would not start anything until the next login.
    Install { dir: String, path: String, text: String },
}

/// What turning background running on or off takes, given the autostart
/// directory.
pub fn set_enabled(enabled: bool, dir: &Option<String>, in_flatpak: bool) -> (change: Result<
    AutostartChange,
    String,
>)
    ensures
        change is Ok <==> dir is Some,
        change matches Err(message) ==> message@ == NO_HOME@,
        change matches Ok(c) ==> match c {
            AutostartChange::Remove(path) => !enabled && path@ == entry_file((dir->0)@, APP_ID@),
            AutostartChange::Install { dir: base, path, text } => enabled && base@ == (dir->0)@
                && path@ == entry_file((dir->0)@, APP_ID@) && text@ == entry_text(
                in_flatpak,
            ),
        },
{
    let base = match dir {
        Some(base) => base.as_str(),
        None => {
            return Err(NO_HOME.to_owned());
        },
    };
    let path = entry_path(base, APP_ID);
    if !enabled {
        return Ok(AutostartChange::Remove(path));
    }
    Ok(AutostartChange::Install { dir: base.to_owned(), path, text: entry(in_flatpak) })
}

/// What went wrong while turning background running on or off.
#[derive(Clone, Copy, Debug, PartialEq, Eq, Structural)]
pub enum AutostartStep {
    Remove,
    CreateDirectory,
    Write,
    FindProgram,
    StartDaemon,
}

/// How a failed step is explained, where `place` is what it was about.
pub open spec fn complaint_text(step: AutostartStep, place: Seq<char>, error: Seq<char>) -> Seq<
    char,
> {
    match step {
        AutostartStep::Remove => "could not remove "@ + place + ": "@ + error,
        AutostartStep::CreateDirectory => "could not create "@ + place + ": "@ + error,
        AutostartStep::Write => "could not write "@ + place + ": "@ + error,
        AutostartStep::FindProgram => "could not find our own binary to start: "@ + error,
        AutostartStep::StartDaemon => "could not start the background process: "@ + error,
    }
}

/// Explains a failed step.
pub fn complaint(step: AutostartStep, place: &str, error: &str) -> (text: String)
    ensures
        text@ == complaint_text(step, place@, error@),
{
    match step {
        AutostartStep::Remove => "could not remove ".to_owned().concat(place).concat(": ").concat(
            error,
        ),
        AutostartStep::CreateDirectory => "could not create ".to_owned().concat(place).concat(
            ": ",
        ).concat(error),
        AutostartStep::Write => "could not write ".to_owned().concat(place).concat(": ").concat(
            error,
        ),
        AutostartStep::FindProgram => "could not find our own binary to start: ".to_owned().concat(
            error,
        ),
        AutostartStep::StartDaemon => "could not start the background process: ".to_owned().concat(
            error,
        ),
    }
}

/// How removing a file went.
#[derive(Debug)]
pub enum Removal {
    Removed,
    NotFound,
    Failed(String),
}

/// What came of removing the entry at `path`. Removing something already gone is
/// success: the caller asked for a state, and that state holds.
pub fn removed(path: &str, removal: &Removal) -> (result: Result<(), String>)
    ensures
        result is Err <==> removal is Failed,
        result matches Err(message) ==> message@ == complaint_text(
            AutostartStep::Remove,
            path@,
            (removal->Failed_0)@,
        ),
{
    match removal {
        Removal::Removed => Ok(()),
        Removal::NotFound => Ok(()),
        Removal::Failed(error) => Err(complaint(AutostartStep::Remove, path, error.as_str())),
    }
}

/// The arguments that start the managed daemon.
pub fn daemon_args() -> (args: Vec<String>)
    ensures
        string_views(args@) == seq!["--daemon"@, MANAGED_FLAG@],
{
    let mut args: Vec<String> = Vec::new();
    args.push("--daemon".to_owned());
    args.push(MANAGED_FLAG.to_owned());
    assert(string_views(args@) =~= seq!["--daemon"@, MANAGED_FLAG@]);
    args
}

} // verus!
