//! The glyph names of applications: a table of exact names, a table of name
//! prefixes, and a default.

use vstd::prelude::*;
use vstd::string::*;
use crate::text::str_eq;

verus! {

/// The glyph name of each application that is known by its exact name.
pub open spec fn exact_table() -> Seq<(Seq<char>, Seq<char>)> {
    seq![
        ("1Password"@, ":one_password:"@),
        ("Activity Monitor"@, ":activity_monitor:"@),
        ("Alacritty"@, ":alacritty:"@),
        ("App Store"@, ":app_store:"@),
        ("Arc"@, ":arc:"@),
        ("Brave Browser"@, ":brave_browser:"@),
        ("Calendar"@, ":calendar:"@),
        ("Code"@, ":code:"@),
        ("Cursor"@, ":cursor:"@),
        ("Discord"@, ":discord:"@),
        ("Docker"@, ":docker:"@),
        ("Docker Desktop"@, ":docker:"@),
        ("Figma"@, ":figma:"@),
        ("Finder"@, ":finder:"@),
        ("Firefox"@, ":firefox:"@),
        ("Ghostty"@, ":ghostty:"@),
        ("Google Chrome"@, ":google_chrome:"@),
        ("iTerm"@, ":iterm:"@),
        ("iTerm2"@, ":iterm:"@),
        ("kitty"@, ":kitty:"@),
        ("Mail"@, ":mail:"@),
        ("Messages"@, ":messages:"@),
        ("Microsoft Teams"@, ":microsoft_teams:"@),
        ("Music"@, ":music:"@),
        ("Notes"@, ":notes:"@),
        ("Notion"@, ":notion:"@),
        ("Obsidian"@, ":obsidian:"@),
        ("Preview"@, ":pdf:"@),
        ("Safari"@, ":safari:"@),
        ("Slack"@, ":slack:"@),
        ("Spotify"@, ":spotify:"@),
        ("System Preferences"@, ":gear:"@),
        ("System Settings"@, ":gear:"@),
        ("Telegram"@, ":telegram:"@),
        ("Terminal"@, ":terminal:"@),
        ("Visual Studio Code"@, ":code:"@),
        ("WezTerm"@, ":wezterm:"@),
        ("WhatsApp"@, ":whats_app:"@),
        ("Xcode"@, ":xcode:"@),
        ("Zed"@, ":zed:"@),
        ("zoom.us"@, ":zoom:"@),
    ]
}

/// The glyph name of each family of applications whose names begin alike.
pub open spec fn prefix_table() -> Seq<(Seq<char>, Seq<char>)> {
    seq![
        ("Adobe Bridge"@, ":bridge:"@),
        ("Adobe Illustrator"@, ":illustrator:"@),
        ("Adobe Photoshop"@, ":photoshop:"@),
        ("MongoDB Compass"@, ":mongodb:"@),
    ]
}

/// The glyph name of an application that no table knows.
pub open spec fn default_icon() -> Seq<char> {
    ":default:"@
}

/// Whether `name` begins with `prefix`.
pub open spec fn begins_with(name: Seq<char>, prefix: Seq<char>) -> bool {
    prefix.len() <= name.len() && name.subrange(0, prefix.len() as int) == prefix
}

/// The value of the first entry from `from` on whose key is `name`.
pub open spec fn lookup_exact(table: Seq<(Seq<char>, Seq<char>)>, name: Seq<char>, from: int) -> Option<
    Seq<char>,
>
    decreases table.len() - from,
{
    if from < 0 || from >= table.len() {
        None
    } else if table[from].0 == name {
        Some(table[from].1)
    } else {
        lookup_exact(table, name, from + 1)
    }
}

/// The value of the first entry from `from` on whose key `name` begins with.
pub open spec fn lookup_prefix(table: Seq<(Seq<char>, Seq<char>)>, name: Seq<char>, from: int) -> Option<
    Seq<char>,
>
    decreases table.len() - from,
{
    if from < 0 || from >= table.len() {
        None
    } else if begins_with(name, table[from].0) {
        Some(table[from].1)
    } else {
        lookup_prefix(table, name, from + 1)
    }
}

/// The glyph name of an application: that of its exact name where the table
/// has it, else that of the first prefix that its name begins with, else the
/// default.
pub open spec fn icon_for(app_name: Seq<char>) -> Seq<char> {
    match lookup_exact(exact_table(), app_name, 0) {
        Some(icon) => icon,
        None => match lookup_prefix(prefix_table(), app_name, 0) {
            Some(icon) => icon,
            None => default_icon(),
        },
    }
}

/// The views of the entries of a table.
pub open spec fn table_view(table: Seq<(&'static str, &'static str)>) -> Seq<(Seq<char>, Seq<char>)> {
    Seq::new(table.len(), |i: int| (table[i].0@, table[i].1@))
}

fn exact_entries() -> (table: Vec<(&'static str, &'static str)>)
    ensures
        table_view(table@) == exact_table(),
{
    let table = vec![
        ("1Password", ":one_password:"),
        ("Activity Monitor", ":activity_monitor:"),
        ("Alacritty", ":alacritty:"),
        ("App Store", ":app_store:"),
        ("Arc", ":arc:"),
        ("Brave Browser", ":brave_browser:"),
        ("Calendar", ":calendar:"),
        ("Code", ":code:"),
        ("Cursor", ":cursor:"),
        ("Discord", ":discord:"),
        ("Docker", ":docker:"),
        ("Docker Desktop", ":docker:"),
        ("Figma", ":figma:"),
        ("Finder", ":finder:"),
        ("Firefox", ":firefox:"),
        ("Ghostty", ":ghostty:"),
        ("Google Chrome", ":google_chrome:"),
        ("iTerm", ":iterm:"),
        ("iTerm2", ":iterm:"),
        ("kitty", ":kitty:"),
        ("Mail", ":mail:"),
        ("Messages", ":messages:"),
        ("Microsoft Teams", ":microsoft_teams:"),
        ("Music", ":music:"),
        ("Notes", ":notes:"),
        ("Notion", ":notion:"),
        ("Obsidian", ":obsidian:"),
        ("Preview", ":pdf:"),
        ("Safari", ":safari:"),
        ("Slack", ":slack:"),
        ("Spotify", ":spotify:"),
        ("System Preferences", ":gear:"),
        ("System Settings", ":gear:"),
        ("Telegram", ":telegram:"),
        ("Terminal", ":terminal:"),
        ("Visual Studio Code", ":code:"),
        ("WezTerm", ":wezterm:"),
        ("WhatsApp", ":whats_app:"),
        ("Xcode", ":xcode:"),
        ("Zed", ":zed:"),
        ("zoom.us", ":zoom:"),
    ];
    assert(table_view(table@) =~= exact_table());
    table
}

fn prefix_entries() -> (table: Vec<(&'static str, &'static str)>)
    ensures
        table_view(table@) == prefix_table(),
{
    let table = vec![
        ("Adobe Bridge", ":bridge:"),
        ("Adobe Illustrator", ":illustrator:"),
        ("Adobe Photoshop", ":photoshop:"),
        ("MongoDB Compass", ":mongodb:"),
    ];
    assert(table_view(table@) =~= prefix_table());
    table
}

/// Tells whether `name` begins with `prefix`.
pub fn starts_with(name: &str, prefix: &str) -> (yes: bool)
    ensures
        yes == begins_with(name@, prefix@),
{
    let n: usize = prefix.unicode_len();
    if n > name.unicode_len() {
        return false;
    }
    let mut i: usize = 0;
    while i < n
        invariant
            n == prefix@.len(),
            n <= name@.len(),
            i <= n,
            forall|k: int| 0 <= k < i ==> name@[k] == prefix@[k],
        decreases n - i,
    {
        if name.get_char(i) != prefix.get_char(i) {
            assert(name@.subrange(0, n as int)[i as int] != prefix@[i as int]);
            return false;
        }
        i += 1;
    }
    assert(name@.subrange(0, n as int) =~= prefix@);
    true
}

/// The glyph name of an application.
pub fn get_icon(app_name: &str) -> (icon: &'static str)
    ensures
        icon@ == icon_for(app_name@),
{
    let exact = exact_entries();
    let mut i: usize = 0;
    while i < exact.len()
        invariant
            i <= exact@.len(),
            table_view(exact@) == exact_table(),
            lookup_exact(exact_table(), app_name@, 0) == lookup_exact(
                exact_table(),
                app_name@,
                i as int,
            ),
        decreases exact@.len() - i,
    {
        assert(table_view(exact@)[i as int] == (exact@[i as int].0@, exact@[i as int].1@));
        if str_eq(exact[i].0, app_name) {
            return exact[i].1;
        }
        i += 1;
    }
    let prefixes = prefix_entries();
    let mut j: usize = 0;
    while j < prefixes.len()
        invariant
            j <= prefixes@.len(),
            table_view(prefixes@) == prefix_table(),
            lookup_exact(exact_table(), app_name@, 0) is None,
            lookup_prefix(prefix_table(), app_name@, 0) == lookup_prefix(
                prefix_table(),
                app_name@,
                j as int,
            ),
        decreases prefixes@.len() - j,
    {
        assert(table_view(prefixes@)[j as int] == (prefixes@[j as int].0@, prefixes@[j as int].1@));
        if starts_with(app_name, prefixes[j].0) {
            return prefixes[j].1;
        }
        j += 1;
    }
    ":default:"
}

} // verus!
