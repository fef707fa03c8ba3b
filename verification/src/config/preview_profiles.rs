//! Groups of encoding profiles compared in preview mode.

use vstd::prelude::*;
use crate::config::types::{PreviewProfile, RawPreviewProfile};
use crate::error::Error;
use crate::text::{concat, join_strings, seq_join, sort_strings, sorted_seqs, str_eq, strings_view};

verus! {

/// Mathematical content of a preview profile group.
pub struct PreviewProfileView {
    pub name: Seq<char>,
    pub title: Seq<char>,
    pub profiles: Seq<Seq<char>>,
}

impl View for PreviewProfile {
    type V = PreviewProfileView;

    open spec fn view(&self) -> PreviewProfileView {
        PreviewProfileView { name: self.name@, title: self.title@, profiles: strings_view(self.profiles@) }
    }
}

pub open spec fn preview_views(v: Seq<PreviewProfile>) -> Seq<PreviewProfileView> {
    v.map_values(|p: PreviewProfile| p@)
}

pub open spec fn raw_preview_view(name: Seq<char>, raw: RawPreviewProfile) -> PreviewProfileView {
    PreviewProfileView { name, title: raw.title@, profiles: strings_view(raw.profiles@) }
}

pub open spec fn raw_previews_view(raw: Seq<(String, RawPreviewProfile)>) -> Seq<PreviewProfileView> {
    raw.map_values(|e: (String, RawPreviewProfile)| raw_preview_view(e.0@, e.1))
}

pub open spec fn preview_names(v: Seq<PreviewProfileView>) -> Seq<Seq<char>> {
    v.map_values(|p: PreviewProfileView| p.name)
}

pub open spec fn has_preview(v: Seq<PreviewProfileView>, name: Seq<char>) -> bool {
    exists|i: int| 0 <= i < v.len() && #[trigger] v[i].name == name
}

/// Message when a group lists no encoding profile.
pub open spec fn empty_group_message(name: Seq<char>) -> Seq<char> {
    "Preview profile '"@ + name + "' must specify at least one encoding profile"@
}

/// Message of a failed lookup; `known` is the sorted list of names.
pub open spec fn preview_not_found_message(name: Seq<char>, known: Seq<Seq<char>>) -> Seq<char> {
    "Preview profile '"@ + name + "' not found. Available profiles: "@ + seq_join(known, ", "@)
}

/// Preview profile groups, looked up by name.
pub struct PreviewProfileManager {
    profiles: Vec<PreviewProfile>,
}

impl View for PreviewProfileManager {
    type V = Seq<PreviewProfileView>;

    closed spec fn view(&self) -> Seq<PreviewProfileView> {
        preview_views(self.profiles@)
    }
}

impl PreviewProfileManager {
    /// No two groups share a name (the type's invariant).
    #[verifier::type_invariant]
    pub open spec fn wf(&self) -> bool {
        preview_names(self@).no_duplicates()
    }

    /// Builds the groups from the configuration, whose group names are
    /// distinct; a group with no encoding profile is refused.
    pub fn new(raw_profiles: Vec<(String, RawPreviewProfile)>) -> (r: crate::error::Result<Self>)
        requires
            forall|i: int, j: int|
                0 <= i < raw_profiles@.len() && 0 <= j < raw_profiles@.len() && i != j
                    ==> raw_profiles@[i].0@ != raw_profiles@[j].0@,
        ensures
            r is Ok <==> forall|i: int|
                0 <= i < raw_profiles@.len() ==> #[trigger] raw_profiles@[i].1.profiles@.len() > 0,
            r matches Ok(m) ==> m@ == raw_previews_view(raw_profiles@),
            r matches Err(e) ==> exists|i: int|
                0 <= i < raw_profiles@.len() && #[trigger] raw_profiles@[i].1.profiles@.len() == 0
                    && e == (Error::Validation { message: e->Validation_message })
                    && e->Validation_message@ == empty_group_message(raw_profiles@[i].0@),
    {
        let ghost raw_seq = raw_profiles@;
        let n = raw_profiles.len();
        let mut src = raw_profiles;
        let mut rev: Vec<(String, RawPreviewProfile)> = Vec::new();
        while src.len() > 0
            invariant
                src@.len() + rev@.len() == n,
                n == raw_seq.len(),
                src@ == raw_seq.subrange(0, src@.len() as int),
                forall|k: int| 0 <= k < rev@.len() ==> #[trigger] rev@[k] == raw_seq[n - 1 - k],
            decreases src@.len(),
        {
            let e = src.pop().unwrap();
            rev.push(e);
        }
        let mut profiles: Vec<PreviewProfile> = Vec::new();
        while rev.len() > 0
            invariant
                profiles@.len() + rev@.len() == n,
                n == raw_seq.len(),
                forall|k: int| 0 <= k < rev@.len() ==> #[trigger] rev@[k] == raw_seq[n - 1 - k],
                raw_seq == raw_profiles@,
                preview_views(profiles@) == raw_previews_view(raw_seq.subrange(0, profiles@.len() as int)),
                forall|k: int| 0 <= k < profiles@.len() ==> #[trigger] raw_seq[k].1.profiles@.len() > 0,
            decreases rev@.len(),
        {
            let ghost k: int = profiles@.len() as int;
            let e = rev.pop().unwrap();
            assert(e == raw_seq[k]);
            let (name, raw) = e;
            if raw.profiles.len() == 0 {
                let mut m = concat("Preview profile '", name.as_str());
                m.append("' must specify at least one encoding profile");
                assert(raw_profiles@[k].1.profiles@.len() == 0);
                return Err(Error::Validation { message: m });
            }
            let p = PreviewProfile::from_raw(name, raw);
            assert(p@ == raw_preview_view(raw_seq[k].0@, raw_seq[k].1));
            let ghost old_p = profiles@;
            profiles.push(p);
            assert forall|j: int| 0 <= j <= k implies preview_views(profiles@)[j]
                == raw_previews_view(raw_seq.subrange(0, k + 1))[j] by {
                if j < k {
                    assert(preview_views(profiles@)[j] == preview_views(old_p)[j]);
                    assert(raw_seq.subrange(0, k + 1)[j] == raw_seq.subrange(0, k)[j]);
                    assert(preview_views(old_p)[j] == raw_previews_view(raw_seq.subrange(0, k))[j]);
                }
            }
            assert(preview_views(profiles@) =~= raw_previews_view(raw_seq.subrange(0, k + 1)));
        }
        assert(raw_seq.subrange(0, n as int) =~= raw_seq);
        assert forall|i: int, j: int|
            0 <= i < preview_names(preview_views(profiles@)).len() && 0 <= j
                < preview_names(preview_views(profiles@)).len() && i != j implies preview_names(
            preview_views(profiles@),
        )[i] != preview_names(preview_views(profiles@))[j] by {
            assert(preview_views(profiles@)[i] == raw_previews_view(raw_seq)[i]);
            assert(preview_views(profiles@)[j] == raw_previews_view(raw_seq)[j]);
        }
        Ok(PreviewProfileManager { profiles })
    }

    /// Looks a group up by name.
    pub fn get_profile(&self, name: &str) -> (r: crate::error::Result<&PreviewProfile>)
        ensures
            r is Ok <==> has_preview(self@, name@),
            r matches Ok(p) ==> p@.name == name@ && exists|i: int|
                0 <= i < self@.len() && self@[i] == p@,
            r matches Err(e) ==> exists|names: Seq<Seq<char>>|
                #[trigger] sorted_seqs(names) && names.len() == self@.len() && (forall|x: Seq<char>|
                    names.contains(x) <==> preview_names(self@).contains(x))
                    && e == (Error::Validation { message: e->Validation_message })
                    && e->Validation_message@ == preview_not_found_message(name@, names),
    {
        let mut i: usize = 0;
        while i < self.profiles.len()
            invariant
                i <= self.profiles@.len(),
                forall|k: int| 0 <= k < i ==> self@[k].name != name@,
            decreases self.profiles.len() - i,
        {
            if str_eq(self.profiles[i].name.as_str(), name) {
                assert(self@[i as int].name == name@);
                return Ok(&self.profiles[i]);
            }
            i = i + 1;
        }
        let names = self.list_profile_names();
        let mut m = concat("Preview profile '", name);
        m.append("' not found. Available profiles: ");
        let joined = join_strings(&names, ", ");
        m.append(joined.as_str());
        Err(Error::Validation { message: m })
    }

    /// All groups.
    pub fn list_profiles(&self) -> (r: Vec<&PreviewProfile>)
        ensures
            r@.len() == self@.len(),
            forall|i: int| 0 <= i < r@.len() ==> #[trigger] r@[i]@ == self@[i],
    {
        let mut r: Vec<&PreviewProfile> = Vec::new();
        let mut i: usize = 0;
        while i < self.profiles.len()
            invariant
                i <= self.profiles@.len(),
                r@.len() == i,
                forall|k: int| 0 <= k < i ==> #[trigger] r@[k]@ == self@[k],
            decreases self.profiles.len() - i,
        {
            r.push(&self.profiles[i]);
            i = i + 1;
        }
        r
    }

    /// The group names in ascending order.
    pub fn list_profile_names(&self) -> (r: Vec<String>)
        ensures
            r@.len() == self@.len(),
            sorted_seqs(strings_view(r@)),
            strings_view(r@).no_duplicates(),
            forall|x: Seq<char>| strings_view(r@).contains(x) <==> preview_names(self@).contains(x),
            strings_view(r@).to_multiset() == preview_names(self@).to_multiset(),
    {
        proof {
            use_type_invariant(self);
        }
        let mut names: Vec<String> = Vec::new();
        let mut i: usize = 0;
        while i < self.profiles.len()
            invariant
                i <= self.profiles@.len(),
                names@.len() == i,
                strings_view(names@) == preview_names(self@).subrange(0, i as int),
            decreases self.profiles.len() - i,
        {
            let ghost old_n = names@;
            let nm = self.profiles[i].name.clone();
            assert(preview_names(self@)[i as int] == nm@);
            names.push(nm);
            assert forall|j: int| 0 <= j < i implies strings_view(names@)[j] == strings_view(old_n)[j] by {}
            i = i + 1;
            assert(strings_view(names@) =~= preview_names(self@).subrange(0, i as int));
        }
        assert(preview_names(self@).subrange(0, i as int) =~= preview_names(self@));
        let r = sort_strings(names);
        proof {
            preview_names(self@).lemma_multiset_has_no_duplicates();
            strings_view(r@).lemma_multiset_has_no_duplicates_conv();
        }
        r
    }

    pub fn is_empty(&self) -> (r: bool)
        ensures
            r == (self@.len() == 0),
    {
        self.profiles.len() == 0
    }
}

} // verus!
