//! The set of stream selection profiles known to a run.

use vstd::prelude::*;
use crate::config::types::{
    audio_select_all, subtitle_select_all, AudioSelectionConfig, AudioSelectionView,
    RawStreamSelectionProfile, StreamSelectionProfile, StreamSelectionProfileView,
    SubtitleSelectionConfig, SubtitleSelectionView,
};
use crate::error::Error;
use crate::text::{concat, join_strings, owned, seq_join, str_eq, strings_view};

verus! {

broadcast use vstd::string::group_string_axioms;

/// Views of a list of profiles.
pub open spec fn profiles_view(v: Seq<StreamSelectionProfile>) -> Seq<StreamSelectionProfileView> {
    v.map_values(|p: StreamSelectionProfile| p@)
}

/// Names of a list of profiles.
pub open spec fn profile_names(v: Seq<StreamSelectionProfileView>) -> Seq<Seq<char>> {
    v.map_values(|p: StreamSelectionProfileView| p.name)
}

/// No two profiles share a name.
pub open spec fn names_distinct(v: Seq<StreamSelectionProfileView>) -> bool {
    forall|i: int, j: int| 0 <= i < v.len() && 0 <= j < v.len() && i != j ==> v[i].name != v[j].name
}

/// Some profile is called `name`.
pub open spec fn has_name(v: Seq<StreamSelectionProfileView>, name: Seq<char>) -> bool {
    exists|i: int| 0 <= i < v.len() && #[trigger] v[i].name == name
}

/// The built-in profiles used when the configuration defines none.
pub open spec fn default_stream_profiles() -> Seq<StreamSelectionProfileView> {
    seq![
        StreamSelectionProfileView {
            name: "default"@,
            title: "Default - Copy all streams"@,
            audio: audio_select_all(),
            subtitle: subtitle_select_all(),
        },
        StreamSelectionProfileView {
            name: "english_only"@,
            title: "English Only - Audio and subtitles"@,
            audio: AudioSelectionView {
                languages: Some(seq!["eng"@]),
                codecs: None,
                dispositions: None,
                title_patterns: None,
                exclude_commentary: true,
                max_streams: Some(2),
            },
            subtitle: SubtitleSelectionView {
                languages: Some(seq!["eng"@]),
                codecs: None,
                dispositions: None,
                title_patterns: None,
                exclude_commentary: true,
                include_forced_only: false,
                max_streams: Some(2),
            },
        },
        StreamSelectionProfileView {
            name: "multilang"@,
            title: "Multi-language - English and Japanese"@,
            audio: AudioSelectionView {
                languages: Some(seq!["eng"@, "jpn"@]),
                codecs: Some(seq!["aac"@, "ac3"@, "dts"@]),
                dispositions: Some(seq!["default"@, "original"@]),
                title_patterns: Some(seq!["(?i)^(?!.*(commentary|director|behind|making|bonus)).*$"@]),
                exclude_commentary: true,
                max_streams: Some(3),
            },
            subtitle: SubtitleSelectionView {
                languages: Some(seq!["eng"@, "jpn"@]),
                codecs: Some(seq!["subrip"@, "ass"@]),
                dispositions: Some(seq!["forced"@, "default"@]),
                title_patterns: Some(seq!["(?i)^(?!.*(commentary|director|behind|making|bonus)).*$"@]),
                exclude_commentary: true,
                include_forced_only: false,
                max_streams: Some(4),
            },
        },
        StreamSelectionProfileView {
            name: "forced_only"@,
            title: "Forced Subtitles - All audio, forced subs only"@,
            audio: AudioSelectionView {
                languages: None,
                codecs: None,
                dispositions: None,
                title_patterns: None,
                exclude_commentary: true,
                max_streams: None,
            },
            subtitle: SubtitleSelectionView {
                languages: None,
                codecs: None,
                dispositions: None,
                title_patterns: None,
                exclude_commentary: true,
                include_forced_only: true,
                max_streams: Some(2),
            },
        },
        StreamSelectionProfileView {
            name: "minimal"@,
            title: "Minimal - One audio, forced subs only"@,
            audio: AudioSelectionView {
                languages: Some(seq!["eng"@]),
                codecs: None,
                dispositions: None,
                title_patterns: None,
                exclude_commentary: true,
                max_streams: Some(1),
            },
            subtitle: SubtitleSelectionView {
                languages: None,
                codecs: None,
                dispositions: None,
                title_patterns: None,
                exclude_commentary: true,
                include_forced_only: true,
                max_streams: Some(1),
            },
        },
    ]
}

/// The profile a raw entry becomes.
pub open spec fn raw_profile_view(name: Seq<char>, raw: RawStreamSelectionProfile) -> StreamSelectionProfileView {
    StreamSelectionProfileView {
        name: name,
        title: raw.title@,
        audio: match raw.audio {
            Some(a) => a@,
            None => audio_select_all(),
        },
        subtitle: match raw.subtitle {
            Some(s) => s@,
            None => subtitle_select_all(),
        },
    }
}

/// The profiles made from the configuration's entries, in order.
pub open spec fn raw_profiles_view(raw: Seq<(String, RawStreamSelectionProfile)>) -> Seq<StreamSelectionProfileView> {
    raw.map_values(|e: (String, RawStreamSelectionProfile)| raw_profile_view(e.0@, e.1))
}

/// Message of a failed profile lookup.
pub open spec fn profile_not_found_message(name: Seq<char>, known: Seq<Seq<char>>) -> Seq<char> {
    "Stream selection profile '"@ + name + "' not found. Available profiles: "@ + seq_join(known, ", "@)
}

fn vec_of(a: &str) -> (r: Vec<String>)
    ensures
        strings_view(r@) == seq![a@],
{
    let r = vec![owned(a)];
    assert(strings_view(r@) =~= seq![a@]);
    r
}

fn vec_of2(a: &str, b: &str) -> (r: Vec<String>)
    ensures
        strings_view(r@) == seq![a@, b@],
{
    let r = vec![owned(a), owned(b)];
    assert(strings_view(r@) =~= seq![a@, b@]);
    r
}

fn vec_of3(a: &str, b: &str, c: &str) -> (r: Vec<String>)
    ensures
        strings_view(r@) == seq![a@, b@, c@],
{
    let r = vec![owned(a), owned(b), owned(c)];
    assert(strings_view(r@) =~= seq![a@, b@, c@]);
    r
}

/// Stream selection profiles, looked up by name.
pub struct StreamSelectionProfileManager {
    profiles: Vec<StreamSelectionProfile>,
}

impl View for StreamSelectionProfileManager {
    type V = Seq<StreamSelectionProfileView>;

    closed spec fn view(&self) -> Seq<StreamSelectionProfileView> {
        profiles_view(self.profiles@)
    }
}

impl StreamSelectionProfileManager {
    /// At least one profile, and names are unique (the type's invariant).
    #[verifier::type_invariant]
    pub open spec fn wf(&self) -> bool {
        self@.len() > 0 && names_distinct(self@)
    }

    /// Builds the profiles from the configuration; with no entries the
    /// built-in profiles are used.
    pub fn new(raw_profiles: Vec<(String, RawStreamSelectionProfile)>) -> (r: crate::error::Result<Self>)
        requires
            forall|i: int, j: int|
                0 <= i < raw_profiles@.len() && 0 <= j < raw_profiles@.len() && i != j
                    ==> raw_profiles@[i].0@ != raw_profiles@[j].0@,
        ensures
            r is Ok,
            r matches Ok(m) ==> m.wf(),
            r matches Ok(m) ==> m@ == if raw_profiles@.len() == 0 {
                default_stream_profiles()
            } else {
                raw_profiles_view(raw_profiles@)
            },
    {
        let ghost raw_seq = raw_profiles@;
        let mut profiles: Vec<StreamSelectionProfile> = Vec::new();
        let mut raw_profiles = raw_profiles;
        let n = raw_profiles.len();
        let mut rev: Vec<(String, RawStreamSelectionProfile)> = Vec::new();
        // take the entries in order
        while raw_profiles.len() > 0
            invariant
                raw_profiles@.len() + rev@.len() == n,
                n == raw_seq.len(),
                raw_profiles@ == raw_seq.subrange(0, raw_profiles@.len() as int),
                forall|k: int| 0 <= k < rev@.len() ==> #[trigger] rev@[k] == raw_seq[n - 1 - k],
            decreases raw_profiles@.len(),
        {
            let e = raw_profiles.pop().unwrap();
            rev.push(e);
        }
        while rev.len() > 0
            invariant
                profiles@.len() + rev@.len() == n,
                n == raw_seq.len(),
                forall|k: int| 0 <= k < rev@.len() ==> #[trigger] rev@[k] == raw_seq[n - 1 - k],
                profiles_view(profiles@) == raw_profiles_view(raw_seq.subrange(0, profiles@.len() as int)),
            decreases rev@.len(),
        {
            let ghost k: int = profiles@.len() as int;
            let e = rev.pop().unwrap();
            assert(e == raw_seq[k]);
            let (name, raw) = e;
            let p = StreamSelectionProfile::from_raw(name, raw);
            assert(p@ == raw_profile_view(raw_seq[k].0@, raw_seq[k].1));
            let ghost old_p = profiles@;
            profiles.push(p);
            assert(profiles@ == old_p.push(p));
            assert(profiles_view(profiles@)[k] == p@);
            assert forall|j: int| 0 <= j < k implies profiles_view(profiles@)[j] == profiles_view(old_p)[j] by {}
            assert forall|j: int| 0 <= j < k implies raw_profiles_view(raw_seq.subrange(0, k + 1))[j]
                == raw_profiles_view(raw_seq.subrange(0, k))[j] by {
                assert(raw_seq.subrange(0, k + 1)[j] == raw_seq.subrange(0, k)[j]);
            }
            assert(raw_profiles_view(raw_seq.subrange(0, k + 1))[k] == raw_profile_view(
                raw_seq[k].0@,
                raw_seq[k].1,
            ));
            assert(raw_seq.subrange(0, k + 1).drop_last() =~= raw_seq.subrange(0, k));
            assert(k < n);
            assert(raw_profiles_view(raw_seq.subrange(0, k + 1)).len() == k + 1);
            assert(profiles_view(profiles@).len() == k + 1);
            assert(profiles_view(old_p) == raw_profiles_view(raw_seq.subrange(0, k)));
            assert forall|j: int| 0 <= j <= k implies profiles_view(profiles@)[j]
                == raw_profiles_view(raw_seq.subrange(0, k + 1))[j] by {
                if j < k {
                    assert(profiles_view(old_p)[j] == raw_profiles_view(raw_seq.subrange(0, k))[j]);
                }
            }
            assert(profiles_view(profiles@) =~= raw_profiles_view(raw_seq.subrange(0, k + 1)));
        }
        assert(raw_seq.subrange(0, n as int) =~= raw_seq);
        if profiles.len() == 0 {
            profiles = Self::create_default_profiles();
            proof { Self::lemma_defaults_distinct(); }
        } else {
            assert forall|i: int, j: int|
                0 <= i < profiles@.len() && 0 <= j < profiles@.len() && i != j implies
                profiles_view(profiles@)[i].name != profiles_view(profiles@)[j].name by {
                assert(profiles_view(profiles@)[i].name == raw_seq[i].0@);
                assert(profiles_view(profiles@)[j].name == raw_seq[j].0@);
            }
        }
        Ok(StreamSelectionProfileManager { profiles })
    }

    proof fn lemma_defaults_distinct()
        ensures
            names_distinct(default_stream_profiles()),
    {
        reveal_strlit("default");
        reveal_strlit("english_only");
        reveal_strlit("multilang");
        reveal_strlit("forced_only");
        reveal_strlit("minimal");
        assert("default"@[0] != "minimal"@[0]);
        let v = default_stream_profiles();
        assert(v[0].name == "default"@);
        assert(v[1].name == "english_only"@);
        assert(v[2].name == "multilang"@);
        assert(v[3].name == "forced_only"@);
        assert(v[4].name == "minimal"@);
    }

    /// Looks a profile up by name.
    pub fn get_profile(&self, name: &str) -> (r: crate::error::Result<&StreamSelectionProfile>)
        ensures
            r is Ok <==> has_name(self@, name@),
            r matches Ok(p) ==> p@.name == name@ && exists|i: int|
                0 <= i < self@.len() && self@[i] == p@,
            r matches Err(e) ==> e == (Error::Validation {
                message: e->Validation_message,
            }) && e->Validation_message@ == profile_not_found_message(
                name@,
                profile_names(self@),
            ),
    {
        proof { use_type_invariant(self); }
        let mut i: usize = 0;
        while i < self.profiles.len()
            invariant
                i <= self.profiles@.len(),
                forall|k: int| 0 <= k < i ==> self@[k].name != name@,
            decreases self.profiles.len() - i,
        {
            if str_eq(self.profiles[i].name.as_str(), name) {
                assert(self@[i as int].name == name@);
                return Ok(&self.profiles[i]);
            }
            i = i + 1;
        }
        let names = self.list_profile_names();
        let mut m = concat("Stream selection profile '", name);
        m.append("' not found. Available profiles: ");
        let joined = join_strings(&names, ", ");
        m.append(joined.as_str());
        Err(Error::Validation { message: m })
    }

    /// All profiles.
    pub fn list_profiles(&self) -> (r: &Vec<StreamSelectionProfile>)
        ensures
            profiles_view(r@) == self@,
    {
        &self.profiles
    }

    /// The names of all profiles.
    pub fn list_profile_names(&self) -> (r: Vec<String>)
        ensures
            strings_view(r@) == profile_names(self@),
    {
        let mut r: Vec<String> = Vec::new();
        let mut i: usize = 0;
        while i < self.profiles.len()
            invariant
                i <= self.profiles@.len(),
                r@.len() == i,
                strings_view(r@) == profile_names(self@).subrange(0, i as int),
            decreases self.profiles.len() - i,
        {
            let ghost old_r = r@;
            let nm = self.profiles[i].name.clone();
            assert(nm@ == self.profiles@[i as int].name@);
            assert(profile_names(self@)[i as int] == nm@);
            r.push(nm);
            assert(r@ == old_r.push(nm));
            assert(strings_view(r@)[i as int] == nm@);
            assert forall|j: int| 0 <= j < i implies strings_view(r@)[j] == strings_view(old_r)[j] by {}
            i = i + 1;
            assert(strings_view(r@) =~= profile_names(self@).subrange(0, i as int));
        }
        assert(profile_names(self@).subrange(0, i as int) =~= profile_names(self@));
        r
    }

    /// Whether a profile of that name exists.
    pub fn has_profile(&self, name: &str) -> (r: bool)
        ensures
            r == has_name(self@, name@),
    {
        let mut i: usize = 0;
        while i < self.profiles.len()
            invariant
                i <= self.profiles@.len(),
                forall|k: int| 0 <= k < i ==> self@[k].name != name@,
            decreases self.profiles.len() - i,
        {
            if str_eq(self.profiles[i].name.as_str(), name) {
                assert(self@[i as int].name == name@);
                return true;
            }
            i = i + 1;
        }
        false
    }

    /// `default` when such a profile exists, else the first profile's name,
    /// else `none`.
    pub fn get_default_profile_name(&self) -> (r: String)
        ensures
            has_name(self@, "default"@) ==> r@ == "default"@,
            !has_name(self@, "default"@) && self@.len() > 0 ==> r@ == self@[0].name,
            self@.len() == 0 ==> r@ == "none"@,
    {
        if self.has_profile("default") {
            owned("default")
        } else if self.profiles.len() > 0 {
            self.profiles[0].name.clone()
        } else {
            owned("none")
        }
    }

    /// The built-in profiles: default, english_only, multilang, forced_only
    /// and minimal.
    pub fn create_default_profiles() -> (r: Vec<StreamSelectionProfile>)
        ensures
            profiles_view(r@) == default_stream_profiles(),
    {
        let mut profiles: Vec<StreamSelectionProfile> = Vec::new();
        profiles.push(StreamSelectionProfile {
            name: owned("default"),
            title: owned("Default - Copy all streams"),
            audio: AudioSelectionConfig::default(),
            subtitle: SubtitleSelectionConfig::default(),
        });
        profiles.push(StreamSelectionProfile {
            name: owned("english_only"),
            title: owned("English Only - Audio and subtitles"),
            audio: AudioSelectionConfig {
                languages: Some(vec_of("eng")),
                codecs: None,
                dispositions: None,
                title_patterns: None,
                exclude_commentary: true,
                max_streams: Some(2),
            },
            subtitle: SubtitleSelectionConfig {
                languages: Some(vec_of("eng")),
                codecs: None,
                dispositions: None,
                title_patterns: None,
                exclude_commentary: true,
                include_forced_only: false,
                max_streams: Some(2),
            },
        });
        profiles.push(StreamSelectionProfile {
            name: owned("multilang"),
            title: owned("Multi-language - English and Japanese"),
            audio: AudioSelectionConfig {
                languages: Some(vec_of2("eng", "jpn")),
                codecs: Some(vec_of3("aac", "ac3", "dts")),
                dispositions: Some(vec_of2("default", "original")),
                title_patterns: Some(vec_of("(?i)^(?!.*(commentary|director|behind|making|bonus)).*$")),
                exclude_commentary: true,
                max_streams: Some(3),
            },
            subtitle: SubtitleSelectionConfig {
                languages: Some(vec_of2("eng", "jpn")),
                codecs: Some(vec_of2("subrip", "ass")),
                dispositions: Some(vec_of2("forced", "default")),
                title_patterns: Some(vec_of("(?i)^(?!.*(commentary|director|behind|making|bonus)).*$")),
                exclude_commentary: true,
                include_forced_only: false,
                max_streams: Some(4),
            },
        });
        profiles.push(StreamSelectionProfile {
            name: owned("forced_only"),
            title: owned("Forced Subtitles - All audio, forced subs only"),
            audio: AudioSelectionConfig {
                languages: None,
                codecs: None,
                dispositions: None,
                title_patterns: None,
                exclude_commentary: true,
                max_streams: None,
            },
            subtitle: SubtitleSelectionConfig {
                languages: None,
                codecs: None,
                dispositions: None,
                title_patterns: None,
                exclude_commentary: true,
                include_forced_only: true,
                max_streams: Some(2),
            },
        });
        profiles.push(StreamSelectionProfile {
            name: owned("minimal"),
            title: owned("Minimal - One audio, forced subs only"),
            audio: AudioSelectionConfig {
                languages: Some(vec_of("eng")),
                codecs: None,
                dispositions: None,
                title_patterns: None,
                exclude_commentary: true,
                max_streams: Some(1),
            },
            subtitle: SubtitleSelectionConfig {
                languages: None,
                codecs: None,
                dispositions: None,
                title_patterns: None,
                exclude_commentary: true,
                include_forced_only: true,
                max_streams: Some(1),
            },
        });
        assert(profiles_view(profiles@) =~= default_stream_profiles());
        profiles
    }
}

/// A manager built from the configuration always offers the profile that
/// `get_default_profile_name` names.
pub proof fn law_default_name_is_known(m: StreamSelectionProfileManager, name: Seq<char>)
    requires
        m.wf(),
        has_name(m@, "default"@) ==> name == "default"@,
        !has_name(m@, "default"@) ==> name == m@[0].name,
    ensures
        has_name(m@, name),
{
    if !has_name(m@, "default"@) {
        assert(m@[0].name == name);
    }
}

} // verus!
