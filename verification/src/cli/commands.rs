//! Informational commands: which one the options ask for, and the text
//! they print (one entry per printed line).

use vstd::prelude::*;
use crate::cli::args::CliArgs;
use crate::config::stream_profiles::{
    has_name, names_distinct, profile_names, StreamSelectionProfileManager,
};
use crate::config::types::{StreamSelectionProfile, StreamSelectionProfileView};
use crate::text::{concat, concat3, decimal, join_strings, owned, seq_join, strings_view, u64_to_string};

verus! {

/// The informational command the options ask for.
#[derive(Debug, Clone, PartialEq, Eq)]
pub enum InfoCommand {
    ListProfiles,
    ShowProfile(String),
    ListStreamProfiles,
    ShowStreamProfile(String),
    ListPreviewProfiles,
    ValidateConfig,
}

/// The command the options select, in the order of precedence of the
/// command line.
pub open spec fn info_command_of(a: CliArgs) -> Option<InfoCommand> {
    if a.list_profiles {
        Some(InfoCommand::ListProfiles)
    } else if a.show_profile is Some {
        Some(InfoCommand::ShowProfile(a.show_profile.unwrap()))
    } else if a.list_stream_profiles {
        Some(InfoCommand::ListStreamProfiles)
    } else if a.show_stream_profile is Some {
        Some(InfoCommand::ShowStreamProfile(a.show_stream_profile.unwrap()))
    } else if a.list_preview_profiles {
        Some(InfoCommand::ListPreviewProfiles)
    } else if a.validate_config {
        Some(InfoCommand::ValidateConfig)
    } else {
        None
    }
}

/// The informational command to run, where the options ask for one.
pub fn handle_commands(args: &CliArgs) -> (r: Option<InfoCommand>)
    ensures
        r == info_command_of(*args),
{
    if args.list_profiles {
        return Some(InfoCommand::ListProfiles);
    }
    if let Some(name) = &args.show_profile {
        return Some(InfoCommand::ShowProfile(name.clone()));
    }
    if args.list_stream_profiles {
        return Some(InfoCommand::ListStreamProfiles);
    }
    if let Some(name) = &args.show_stream_profile {
        return Some(InfoCommand::ShowStreamProfile(name.clone()));
    }
    if args.list_preview_profiles {
        return Some(InfoCommand::ListPreviewProfiles);
    }
    if args.validate_config {
        return Some(InfoCommand::ValidateConfig);
    }
    None
}

/// `n` copies of a character.
pub open spec fn rule(c: char, n: nat) -> Seq<char> {
    Seq::new(n, |i: int| c)
}

fn rule_line(c: char, n: usize) -> (r: String)
    ensures
        r@ == rule(c, n as nat),
{
    let mut v: Vec<char> = Vec::new();
    let mut i: usize = 0;
    while i < n
        invariant
            i <= n,
            v@ == rule(c, i as nat),
        decreases n - i,
    {
        v.push(c);
        i = i + 1;
        assert(v@ =~= rule(c, i as nat));
    }
    crate::text::string_of(&v)
}

/// `true` or `false`.
pub open spec fn bool_text(b: bool) -> Seq<char> {
    if b {
        "true"@
    } else {
        "false"@
    }
}

/// A list option: its entries joined by `, `, or a word where it is unset.
pub open spec fn list_line(label: Seq<char>, v: Option<Seq<Seq<char>>>, unset: Seq<char>) -> Seq<
    char,
> {
    "  "@ + label + ": "@ + match v {
        Some(l) => seq_join(l, ", "@),
        None => unset,
    }
}

/// The stream limit line.
pub open spec fn max_line(m: Option<usize>) -> Seq<char> {
    "  Max streams: "@ + match m {
        Some(n) => decimal(n as nat),
        None => "Unlimited"@,
    }
}

/// The lines describing a stream selection profile.
pub open spec fn stream_profile_lines(p: StreamSelectionProfileView) -> Seq<Seq<char>> {
    seq![
        "Stream Selection Profile: "@ + p.name,
        rule('=', 50),
        "Title: "@ + p.title,
        Seq::<char>::empty(),
        "Audio Configuration:"@,
        rule('-', 30),
        list_line("Languages"@, p.audio.languages, "All"@),
        list_line("Codecs"@, p.audio.codecs, "All"@),
        list_line("Dispositions"@, p.audio.dispositions, "All"@),
        list_line("Title patterns"@, p.audio.title_patterns, "None"@),
        "  Exclude commentary: "@ + bool_text(p.audio.exclude_commentary),
        max_line(p.audio.max_streams),
        Seq::<char>::empty(),
        "Subtitle Configuration:"@,
        rule('-', 30),
        list_line("Languages"@, p.subtitle.languages, "All"@),
        list_line("Codecs"@, p.subtitle.codecs, "All"@),
        list_line("Dispositions"@, p.subtitle.dispositions, "All"@),
        list_line("Title patterns"@, p.subtitle.title_patterns, "None"@),
        "  Exclude commentary: "@ + bool_text(p.subtitle.exclude_commentary),
        "  Forced only: "@ + bool_text(p.subtitle.include_forced_only),
        max_line(p.subtitle.max_streams),
    ]
}

/// `  - <name>` for each name.
pub open spec fn name_items(names: Seq<Seq<char>>) -> Seq<Seq<char>> {
    names.map_values(|n: Seq<char>| "  - "@ + n)
}

/// The lines for a profile name that is not known.
pub open spec fn unknown_stream_profile_lines(name: Seq<char>, names: Seq<Seq<char>>) -> Seq<
    Seq<char>,
> {
    seq![
        "Stream selection profile '"@ + name + "' not found."@,
        Seq::<char>::empty(),
        "Available profiles:"@,
    ] + name_items(names)
}

fn bool_string(b: bool) -> (r: String)
    ensures
        r@ == bool_text(b),
{
    if b {
        owned("true")
    } else {
        owned("false")
    }
}

fn list_option_line(label: &str, v: &Option<Vec<String>>, unset: &str) -> (r: String)
    ensures
        r@ == list_line(
            label@,
            match v {
                Some(l) => Some(strings_view(l@)),
                None => None,
            },
            unset@,
        ),
{
    let head = concat3("  ", label, ": ");
    match v {
        Some(l) => {
            let j = join_strings(l, ", ");
            concat(head.as_str(), j.as_str())
        },
        None => concat(head.as_str(), unset),
    }
}

fn max_streams_line(m: Option<usize>) -> (r: String)
    ensures
        r@ == max_line(m),
{
    match m {
        Some(n) => {
            let d = u64_to_string(n as u64);
            assert((n as u64) as nat == n as nat);
            concat("  Max streams: ", d.as_str())
        },
        None => concat("  Max streams: ", "Unlimited"),
    }
}

fn push_line(v: &mut Vec<String>, s: String)
    ensures
        strings_view(final(v)@) == strings_view(old(v)@).push(s@),
{
    let ghost sv = s@;
    v.push(s);
    assert(strings_view(final(v)@) =~= strings_view(old(v)@).push(sv));
}

fn profile_detail_lines(p: &StreamSelectionProfile) -> (r: Vec<String>)
    ensures
        strings_view(r@) == stream_profile_lines(p@),
{
    let l0 = concat("Stream Selection Profile: ", p.name.as_str());
    let l1 = rule_line('=', 50);
    let l2 = concat("Title: ", p.title.as_str());
    let l4 = owned("Audio Configuration:");
    let l5 = rule_line('-', 30);
    let l6 = list_option_line("Languages", &p.audio.languages, "All");
    let l7 = list_option_line("Codecs", &p.audio.codecs, "All");
    let l8 = list_option_line("Dispositions", &p.audio.dispositions, "All");
    let l9 = list_option_line("Title patterns", &p.audio.title_patterns, "None");
    let ec = bool_string(p.audio.exclude_commentary);
    let l10 = concat("  Exclude commentary: ", ec.as_str());
    let l11 = max_streams_line(p.audio.max_streams);
    let l13 = owned("Subtitle Configuration:");
    let l14 = rule_line('-', 30);
    let l15 = list_option_line("Languages", &p.subtitle.languages, "All");
    let l16 = list_option_line("Codecs", &p.subtitle.codecs, "All");
    let l17 = list_option_line("Dispositions", &p.subtitle.dispositions, "All");
    let l18 = list_option_line("Title patterns", &p.subtitle.title_patterns, "None");
    let sc = bool_string(p.subtitle.exclude_commentary);
    let l19 = concat("  Exclude commentary: ", sc.as_str());
    let fo = bool_string(p.subtitle.include_forced_only);
    let l20 = concat("  Forced only: ", fo.as_str());
    let l21 = max_streams_line(p.subtitle.max_streams);
    let v = vec![
        l0, l1, l2, String::new(), l4, l5, l6, l7, l8, l9, l10, l11, String::new(), l13, l14, l15,
        l16, l17, l18, l19, l20, l21,
    ];
    assert(strings_view(v@) =~= stream_profile_lines(p@));
    v
}

/// What `--show-stream-profile <name>` prints: the profile's settings, or,
/// for an unknown name, the known names.
pub fn show_stream_profile(manager: &StreamSelectionProfileManager, name: &str) -> (r: Vec<String>)
    ensures
        has_name(manager@, name@) ==> exists|i: int|
            0 <= i < manager@.len() && manager@[i].name == name@ && strings_view(r@)
                == stream_profile_lines(manager@[i]),
        !has_name(manager@, name@) ==> strings_view(r@) == unknown_stream_profile_lines(
            name@,
            profile_names(manager@),
        ),
{
    let mut v: Vec<String> = Vec::new();
    match manager.get_profile(name) {
        Ok(p) => {
            v = profile_detail_lines(p);
        },
        Err(_) => {
            push_line(&mut v, concat3("Stream selection profile '", name, "' not found."));
            push_line(&mut v, String::new());
            push_line(&mut v, owned("Available profiles:"));
            let names = manager.list_profile_names();
            let ghost head = strings_view(v@);
            let mut i: usize = 0;
            while i < names.len()
                invariant
                    i <= names@.len(),
                    strings_view(v@) == head + name_items(strings_view(names@).subrange(0, i as int)),
                decreases names.len() - i,
            {
                assert(strings_view(names@)[i as int] == names@[i as int]@);
                push_line(&mut v, concat("  - ", names[i].as_str()));
                i = i + 1;
                assert(strings_view(v@) =~= head + name_items(
                    strings_view(names@).subrange(0, i as int),
                ));
            }
            assert(strings_view(names@).subrange(0, names@.len() as int) =~= strings_view(names@));
            assert(strings_view(v@) =~= unknown_stream_profile_lines(name@, profile_names(manager@)));
        },
    }
    v
}

/// `  <name> - <title>` for each profile.
pub open spec fn profile_items(ps: Seq<StreamSelectionProfileView>) -> Seq<Seq<char>> {
    ps.map_values(|p: StreamSelectionProfileView| "  "@ + p.name + " - "@ + p.title)
}

/// What `--list-stream-profiles` prints.
pub open spec fn stream_profile_list_lines(ps: Seq<StreamSelectionProfileView>) -> Seq<Seq<char>> {
    seq!["Available Stream Selection Profiles:"@, rule('=', 50)] + profile_items(ps) + seq![
        Seq::<char>::empty(),
        "Use --show-stream-profile <PROFILE> for detailed information"@,
        "Use -s/--stream-selection-profile <PROFILE> to select a profile"@,
    ]
}

/// What `--list-stream-profiles` prints.
pub fn list_stream_profiles(manager: &StreamSelectionProfileManager) -> (r: Vec<String>)
    ensures
        strings_view(r@) == stream_profile_list_lines(manager@),
{
    let mut v: Vec<String> = Vec::new();
    push_line(&mut v, owned("Available Stream Selection Profiles:"));
    push_line(&mut v, rule_line('=', 50));
    let ps = manager.list_profiles();
    let ghost head = strings_view(v@);
    let mut i: usize = 0;
    while i < ps.len()
        invariant
            i <= ps@.len(),
            crate::config::stream_profiles::profiles_view(ps@) == manager@,
            strings_view(v@) == head + profile_items(manager@.subrange(0, i as int)),
        decreases ps.len() - i,
    {
        assert(manager@[i as int] == ps@[i as int]@);
        let line = concat3("  ", ps[i].name.as_str(), " - ");
        push_line(&mut v, concat(line.as_str(), ps[i].title.as_str()));
        i = i + 1;
        assert(strings_view(v@) =~= head + profile_items(manager@.subrange(0, i as int)));
    }
    assert(manager@.subrange(0, ps@.len() as int) =~= manager@);
    push_line(&mut v, String::new());
    push_line(&mut v, owned("Use --show-stream-profile <PROFILE> for detailed information"));
    push_line(&mut v, owned("Use -s/--stream-selection-profile <PROFILE> to select a profile"));
    assert(strings_view(v@) =~= stream_profile_list_lines(manager@));
    v
}

} // verus!
