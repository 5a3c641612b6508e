//! A user's job-search preferences: creation with defaults, editing, and
//! the API view of them.

use vstd::prelude::*;
use crate::resume::copy_strings;
use crate::text::views;

verus! {

/// A work modality as preferences store it.
#[derive(Debug, Clone, Copy, PartialEq, Eq, Structural)]
pub enum PreferredModality {
    Onsite,
    Remote,
    Hybrid,
}

/// The stored name of a modality.
pub open spec fn modality_value(m: PreferredModality) -> Seq<char> {
    match m {
        PreferredModality::Onsite => "onsite"@,
        PreferredModality::Remote => "remote"@,
        PreferredModality::Hybrid => "hybrid"@,
    }
}

/// Law: a modality is stored under its lower-case name, and no two
/// modalities share one.
pub proof fn lemma_modality_values()
    ensures
        modality_value(PreferredModality::Onsite) == "onsite"@,
        modality_value(PreferredModality::Remote) == "remote"@,
        modality_value(PreferredModality::Hybrid) == "hybrid"@,
        forall|a: PreferredModality, b: PreferredModality|
            modality_value(a) == modality_value(b) ==> a == b,
{
    reveal_strlit("onsite");
    reveal_strlit("remote");
    reveal_strlit("hybrid");
    assert forall|a: PreferredModality, b: PreferredModality|
        modality_value(a) == modality_value(b) implies a == b by {
        if a != b {
            assert(modality_value(a)[0] != modality_value(b)[0]);
        }
    }
}

impl PreferredModality {
    /// The stored name of the modality.
    pub fn to_value(&self) -> (r: String)
        ensures
            r@ == modality_value(*self),
    {
        match self {
            PreferredModality::Onsite => "onsite".to_owned(),
            PreferredModality::Remote => "remote".to_owned(),
            PreferredModality::Hybrid => "hybrid".to_owned(),
        }
    }
}

/// A time of day.
#[derive(Debug, Clone, Copy, PartialEq, Eq, Structural)]
pub struct TimeOfDay {
    pub seconds_from_midnight: u32,
    pub nanoseconds: u32,
}

/// The values of a user's preferences.
#[derive(Debug, Clone)]
pub struct PreferenceValues {
    pub directories: Vec<String>,
    pub job_search_at: TimeOfDay,
    pub application_delay: i32,
    pub application_frequency_min: i16,
    pub application_frequency_max: i16,
    pub preferred_roles: Vec<String>,
    pub organization_blacklist: Vec<String>,
    pub minimum_salary: i32,
    pub preferred_modalities: Vec<PreferredModality>,
    pub preferred_countries: Option<Vec<String>>,
}

/// A request to create or edit preferences: the fields to set.
#[derive(Debug, Clone)]
pub struct UpsertUserPreference {
    pub directories: Option<Vec<String>>,
    pub job_search_at: Option<TimeOfDay>,
    pub application_delay: Option<i32>,
    pub application_frequency_min: Option<i16>,
    pub application_frequency_max: Option<i16>,
    pub preferred_roles: Option<Vec<String>>,
    pub organization_blacklist: Option<Vec<String>>,
    pub minimum_salary: Option<i32>,
    pub preferred_modalities: Option<Vec<PreferredModality>>,
    pub preferred_countries: Option<Vec<String>>,
}

/// The value that an optional update gives a field: the new value when
/// given, else the current one.
pub open spec fn updated<T>(new: Option<T>, current: T) -> T {
    match new {
        Some(v) => v,
        None => current,
    }
}

/// The values after editing `v` with `p`: every field that `p` gives is
/// replaced, every other field is kept.
pub open spec fn edited(v: PreferenceValues, p: UpsertUserPreference) -> PreferenceValues {
    PreferenceValues {
        directories: updated(p.directories, v.directories),
        job_search_at: updated(p.job_search_at, v.job_search_at),
        application_delay: updated(p.application_delay, v.application_delay),
        application_frequency_min: updated(p.application_frequency_min, v.application_frequency_min),
        application_frequency_max: updated(p.application_frequency_max, v.application_frequency_max),
        preferred_roles: updated(p.preferred_roles, v.preferred_roles),
        organization_blacklist: updated(p.organization_blacklist, v.organization_blacklist),
        minimum_salary: updated(p.minimum_salary, v.minimum_salary),
        preferred_modalities: updated(p.preferred_modalities, v.preferred_modalities),
        preferred_countries: match p.preferred_countries {
            Some(c) => Some(c),
            None => v.preferred_countries,
        },
    }
}

/// Keeps the current value unless a new one is given.
fn update_field<T>(new: Option<T>, current: T) -> (r: T)
    ensures
        r == updated(new, current),
{
    match new {
        Some(v) => v,
        None => current,
    }
}

impl PreferenceValues {
    /// Edits the preferences: the fields that `payload` gives are set, the
    /// others are kept.
    pub fn edit(self, payload: UpsertUserPreference) -> (r: PreferenceValues)
        ensures
            r == edited(self, payload),
    {
        PreferenceValues {
            directories: update_field(payload.directories, self.directories),
            job_search_at: update_field(payload.job_search_at, self.job_search_at),
            application_delay: update_field(payload.application_delay, self.application_delay),
            application_frequency_min: update_field(
                payload.application_frequency_min,
                self.application_frequency_min,
            ),
            application_frequency_max: update_field(
                payload.application_frequency_max,
                self.application_frequency_max,
            ),
            preferred_roles: update_field(payload.preferred_roles, self.preferred_roles),
            organization_blacklist: update_field(
                payload.organization_blacklist,
                self.organization_blacklist,
            ),
            minimum_salary: update_field(payload.minimum_salary, self.minimum_salary),
            preferred_modalities: update_field(
                payload.preferred_modalities,
                self.preferred_modalities,
            ),
            preferred_countries: match payload.preferred_countries {
                Some(c) => Some(c),
                None => self.preferred_countries,
            },
        }
    }

    /// The preferences of a new user: the fields that `payload` gives, and
    /// for the rest no directories, a search at midnight, a delay of 12 hours
    /// (43 200 seconds), between 0 and 5 applications, no roles, no blacklist, no
    /// minimum salary, every modality and no country restriction.
    pub fn create(payload: UpsertUserPreference) -> (r: PreferenceValues)
        ensures
            creates(payload, r),
    {
        let all_modalities = vec![
            PreferredModality::Onsite,
            PreferredModality::Remote,
            PreferredModality::Hybrid,
        ];
        PreferenceValues {
            directories: update_field(payload.directories, Vec::new()),
            job_search_at: update_field(
                payload.job_search_at,
                TimeOfDay { seconds_from_midnight: 0, nanoseconds: 0 },
            ),
            // 12 hours in seconds
            application_delay: update_field(payload.application_delay, 43_200),
            application_frequency_min: update_field(payload.application_frequency_min, 0),
            application_frequency_max: update_field(payload.application_frequency_max, 5),
            preferred_roles: update_field(payload.preferred_roles, Vec::new()),
            organization_blacklist: update_field(payload.organization_blacklist, Vec::new()),
            minimum_salary: update_field(payload.minimum_salary, 0),
            preferred_modalities: update_field(payload.preferred_modalities, all_modalities),
            preferred_countries: payload.preferred_countries,
        }
    }
}

/// `r` is what creating preferences from `p` gives: the fields that `p`
/// sets, and the defaults for the others.
pub open spec fn creates(p: UpsertUserPreference, r: PreferenceValues) -> bool {
    &&& p.directories is None ==> r.directories@.len() == 0
    &&& p.directories matches Some(v) ==> r.directories == v
    &&& r.job_search_at == updated(p.job_search_at, midnight())
    &&& r.application_delay == updated(p.application_delay, 43_200i32)
    &&& r.application_frequency_min == updated(p.application_frequency_min, 0i16)
    &&& r.application_frequency_max == updated(p.application_frequency_max, 5i16)
    &&& p.preferred_roles is None ==> r.preferred_roles@.len() == 0
    &&& p.preferred_roles matches Some(v) ==> r.preferred_roles == v
    &&& p.organization_blacklist is None ==> r.organization_blacklist@.len() == 0
    &&& p.organization_blacklist matches Some(v) ==> r.organization_blacklist == v
    &&& r.minimum_salary == updated(p.minimum_salary, 0i32)
    &&& p.preferred_modalities is None ==> r.preferred_modalities@ == seq![
        PreferredModality::Onsite,
        PreferredModality::Remote,
        PreferredModality::Hybrid,
    ]
    &&& p.preferred_modalities matches Some(v) ==> r.preferred_modalities == v
    &&& r.preferred_countries == p.preferred_countries
}

/// Law: creating preferences from a request is creating the defaults and
/// then editing them with that request.
pub proof fn lemma_create_is_edited_defaults(p: UpsertUserPreference, defaults: PreferenceValues)
    requires
        creates(empty_request(), defaults),
    ensures
        creates(p, edited(defaults, p)),
{
}

/// Midnight.
pub open spec fn midnight() -> TimeOfDay {
    TimeOfDay { seconds_from_midnight: 0, nanoseconds: 0 }
}

/// The request that sets nothing.
pub open spec fn empty_request() -> UpsertUserPreference {
    UpsertUserPreference {
        directories: None,
        job_search_at: None,
        application_delay: None,
        application_frequency_min: None,
        application_frequency_max: None,
        preferred_roles: None,
        organization_blacklist: None,
        minimum_salary: None,
        preferred_modalities: None,
        preferred_countries: None,
    }
}

/// Law: an edit that sets nothing leaves the preferences as they are.
pub proof fn lemma_edit_nothing(v: PreferenceValues)
    ensures
        edited(v, empty_request()) == v,
{
}

/// Law: editing twice with the same request is the same as editing once.
pub proof fn lemma_edit_idempotent(v: PreferenceValues, p: UpsertUserPreference)
    ensures
        edited(edited(v, p), p) == edited(v, p),
{
}

/// Two requests applied one after the other, as one request: each field
/// of the later request when it sets it, else that of the earlier one.
pub open spec fn combined(p: UpsertUserPreference, q: UpsertUserPreference) -> UpsertUserPreference {
    UpsertUserPreference {
        directories: if q.directories is Some { q.directories } else { p.directories },
        job_search_at: if q.job_search_at is Some { q.job_search_at } else { p.job_search_at },
        application_delay: if q.application_delay is Some {
            q.application_delay
        } else {
            p.application_delay
        },
        application_frequency_min: if q.application_frequency_min is Some {
            q.application_frequency_min
        } else {
            p.application_frequency_min
        },
        application_frequency_max: if q.application_frequency_max is Some {
            q.application_frequency_max
        } else {
            p.application_frequency_max
        },
        preferred_roles: if q.preferred_roles is Some { q.preferred_roles } else { p.preferred_roles },
        organization_blacklist: if q.organization_blacklist is Some {
            q.organization_blacklist
        } else {
            p.organization_blacklist
        },
        minimum_salary: if q.minimum_salary is Some { q.minimum_salary } else { p.minimum_salary },
        preferred_modalities: if q.preferred_modalities is Some {
            q.preferred_modalities
        } else {
            p.preferred_modalities
        },
        preferred_countries: if q.preferred_countries is Some {
            q.preferred_countries
        } else {
            p.preferred_countries
        },
    }
}

/// Law: editing with `p` and then with `q` is editing once with both, the
/// later request winning on the fields it sets.
pub proof fn lemma_edit_compose(v: PreferenceValues, p: UpsertUserPreference, q: UpsertUserPreference)
    ensures
        edited(edited(v, p), q) == edited(v, combined(p, q)),
{
}

/// Stored preferences; `pid`, `job_search_at_text` and `updated_at` hold
/// the display text of the stored identifier, search time and update time.
#[derive(Debug, Clone)]
pub struct UserPreference {
    pub pid: String,
    pub owner_id: i32,
    pub values: PreferenceValues,
    pub job_search_at_text: String,
    pub updated_at: String,
}

/// Preferences as the API reports them.
#[derive(Debug, Clone)]
pub struct UserPreferenceResponse {
    pub id: String,
    pub directories: Vec<String>,
    pub job_search_at: String,
    pub application_delay: i32,
    pub application_frequency_min: i16,
    pub application_frequency_max: i16,
    pub preferred_roles: Vec<String>,
    pub organization_blacklist: Vec<String>,
    pub minimum_salary: i32,
    pub preferred_modalities: Vec<String>,
    pub preferred_countries: Option<Vec<String>>,
    pub last_updated: String,
}

/// The stored names of a list of modalities.
pub open spec fn modality_values(ms: Seq<PreferredModality>) -> Seq<Seq<char>> {
    ms.map_values(|m: PreferredModality| modality_value(m))
}

/// The views of an optional list of strings.
pub open spec fn opt_views(o: Option<Vec<String>>) -> Option<Seq<Seq<char>>> {
    match o {
        Some(v) => Some(views(v@)),
        None => None,
    }
}

impl UserPreferenceResponse {
    /// The response for stored preferences, modalities by their stored name.
    pub fn new(preference: &UserPreference) -> (r: UserPreferenceResponse)
        ensures
            r.id == preference.pid,
            views(r.directories@) == views(preference.values.directories@),
            r.job_search_at == preference.job_search_at_text,
            r.application_delay == preference.values.application_delay,
            r.application_frequency_min == preference.values.application_frequency_min,
            r.application_frequency_max == preference.values.application_frequency_max,
            views(r.preferred_roles@) == views(preference.values.preferred_roles@),
            views(r.organization_blacklist@) == views(preference.values.organization_blacklist@),
            r.minimum_salary == preference.values.minimum_salary,
            views(r.preferred_modalities@) == modality_values(
                preference.values.preferred_modalities@,
            ),
            opt_views(r.preferred_countries) == opt_views(preference.values.preferred_countries),
            r.last_updated == preference.updated_at,
    {
        let v = &preference.values;
        let ms = &v.preferred_modalities;
        let ghost want = modality_values(ms@);
        let mut names: Vec<String> = Vec::new();
        let mut i: usize = 0;
        while i < ms.len()
            invariant
                i <= ms.len(),
                want == modality_values(ms@),
                views(names@) =~= want.take(i as int),
            decreases ms.len() - i,
        {
            let name = ms[i].to_value();
            let ghost before = views(names@);
            names.push(name);
            assert(views(names@) =~= before.push(name@));
            assert(want.take(i + 1) =~= want.take(i as int).push(want[i as int]));
            i = i + 1;
        }
        assert(want.take(i as int) =~= want);
        let countries = match &v.preferred_countries {
            Some(c) => Some(copy_strings(c)),
            None => None,
        };
        UserPreferenceResponse {
            id: preference.pid.clone(),
            directories: copy_strings(&v.directories),
            job_search_at: preference.job_search_at_text.clone(),
            application_delay: v.application_delay,
            application_frequency_min: v.application_frequency_min,
            application_frequency_max: v.application_frequency_max,
            preferred_roles: copy_strings(&v.preferred_roles),
            organization_blacklist: copy_strings(&v.organization_blacklist),
            minimum_salary: v.minimum_salary,
            preferred_modalities: names,
            preferred_countries: countries,
            last_updated: preference.updated_at.clone(),
        }
    }
}

} // verus!
