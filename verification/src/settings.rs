//! Exemption configuration and the exemption rule.
//!
//! A [`Settings`] value holds three independent, optional sets of strings:
//! exempt usernames, exempt pod names and exempt namespaces.  A dimension
//! whose set is absent or empty imposes no restriction; a dimension whose set
//! has entries requires exact membership.  A triple is exempt exactly when
//! some set is configured and all three dimensions pass: with nothing
//! configured at all, no exemption is possible.

use vstd::prelude::*;

verus! {

/// Exemption configuration: three optional sets of strings, one per
/// dimension.  Any combination of present and absent sets is a valid
/// configuration; an absent set means the same as an empty one.
pub struct Settings {
    /// Usernames granted an exemption; absent or empty means the username
    /// dimension imposes no restriction.
    pub exempt_usernames: Option<Vec<String>>,
    /// Pod names granted an exemption; absent or empty means the name
    /// dimension imposes no restriction.
    pub exempt_pod_names: Option<Vec<String>>,
    /// Namespaces granted an exemption; absent or empty means the namespace
    /// dimension imposes no restriction.
    pub exempt_namespaces: Option<Vec<String>>,
}

/// The mathematical model of a [`Settings`] value: each dimension is the set
/// of the configured strings, with no distinction left between an absent set
/// and an empty one.
#[verifier::ext_equal]
pub struct SettingsView {
    pub exempt_usernames: Set<Seq<char>>,
    pub exempt_pod_names: Set<Seq<char>>,
    pub exempt_namespaces: Set<Seq<char>>,
}

/// The set of strings held by a sequence of `String` values.
pub open spec fn string_set(values: Seq<String>) -> Set<Seq<char>> {
    Set::new(|x: Seq<char>| exists|i: int| 0 <= i < values.len() && values[i]@ == x)
}

/// The set of strings configured for one dimension; an absent set models as
/// the empty set.
pub open spec fn option_string_set(values: Option<Vec<String>>) -> Set<Seq<char>> {
    match values {
        Some(v) => string_set(v@),
        None => Set::empty(),
    }
}

/// One dimension of the exemption rule: an empty set imposes no restriction,
/// a non-empty set requires membership.
pub open spec fn dimension_passes(exempt: Set<Seq<char>>, value: Seq<char>) -> bool {
    exempt.is_empty() || exempt.contains(value)
}

impl View for Settings {
    type V = SettingsView;

    open spec fn view(&self) -> SettingsView {
        SettingsView {
            exempt_usernames: option_string_set(self.exempt_usernames),
            exempt_pod_names: option_string_set(self.exempt_pod_names),
            exempt_namespaces: option_string_set(self.exempt_namespaces),
        }
    }
}

impl SettingsView {
    /// Whether any exemption set has an entry at all.  With none configured
    /// there is nothing to grant, so no triple is exempt.
    pub open spec fn any_configured(self) -> bool {
        ||| !self.exempt_usernames.is_empty()
        ||| !self.exempt_pod_names.is_empty()
        ||| !self.exempt_namespaces.is_empty()
    }

    /// The exemption rule: a triple is exempt exactly when some set is
    /// configured and every dimension either has nothing configured or
    /// contains the triple's value.
    pub open spec fn is_exempt(self, username: Seq<char>, pod_name: Seq<char>, namespace: Seq<char>) -> bool {
        &&& self.any_configured()
        &&& dimension_passes(self.exempt_usernames, username)
        &&& dimension_passes(self.exempt_pod_names, pod_name)
        &&& dimension_passes(self.exempt_namespaces, namespace)
    }
}

/// Whether some entry of `values` holds exactly the string `value`.
pub open spec fn seq_contains_string(values: Seq<String>, value: Seq<char>) -> bool {
    exists|i: int| 0 <= i < values.len() && values[i]@ == value
}

/// `string_set` contains exactly the strings that some entry holds, and is
/// empty exactly when there are no entries.
pub proof fn lemma_string_set_characterization(values: Seq<String>, value: Seq<char>)
    ensures
        string_set(values).contains(value) == seq_contains_string(values, value),
        string_set(values).is_empty() <==> values.len() == 0,
{
    if values.len() > 0 {
        assert(string_set(values).contains(values[0]@));
    }
    if values.len() == 0 {
        assert(string_set(values) =~= Set::<Seq<char>>::empty());
    }
}

/// An absent exemption set and an empty one mean the same thing: a dimension
/// configured as absent and one configured as an empty list model as the same
/// set, so every evaluation treats them alike.
pub proof fn lemma_absent_equals_empty(values: Vec<String>)
    requires
        values@.len() == 0,
    ensures
        option_string_set(Some(values)) =~= option_string_set(None::<Vec<String>>),
{
}

/// With every exemption set absent or empty there is nothing configured to
/// grant, so no triple at all is exempt.
pub proof fn lemma_nothing_configured_not_exempt(
    settings: SettingsView,
    username: Seq<char>,
    pod_name: Seq<char>,
    namespace: Seq<char>,
)
    requires
        settings.exempt_usernames.is_empty(),
        settings.exempt_pod_names.is_empty(),
        settings.exempt_namespaces.is_empty(),
    ensures
        !settings.is_exempt(username, pod_name, namespace),
{
}

/// Growing a non-empty dimension set never makes it fail a value it passed,
/// and makes it pass a value it failed only when that value is the added
/// entry.  (A dimension whose set is empty imposes no restriction at all, so
/// adding a first entry can make it fail values it passed before.)
pub proof fn lemma_dimension_monotonic(exempt: Set<Seq<char>>, entry: Seq<char>, value: Seq<char>)
    requires
        !exempt.is_empty(),
    ensures
        dimension_passes(exempt, value) ==> dimension_passes(exempt.insert(entry), value),
        !dimension_passes(exempt, value) && dimension_passes(exempt.insert(entry), value)
            ==> value == entry,
{
    assert(exempt.insert(entry).contains(entry));
}

/// Adding an entry to a non-empty exempt-usernames set, holding the other
/// sets fixed, never revokes an exemption, and can newly grant one only to
/// triples whose username is exactly the added entry.
pub proof fn lemma_exempt_monotonic_usernames(
    settings: SettingsView,
    entry: Seq<char>,
    username: Seq<char>,
    pod_name: Seq<char>,
    namespace: Seq<char>,
)
    requires
        !settings.exempt_usernames.is_empty(),
    ensures
        ({
            let grown = SettingsView {
                exempt_usernames: settings.exempt_usernames.insert(entry),
                exempt_pod_names: settings.exempt_pod_names,
                exempt_namespaces: settings.exempt_namespaces,
            };
            &&& settings.is_exempt(username, pod_name, namespace)
                ==> grown.is_exempt(username, pod_name, namespace)
            &&& !settings.is_exempt(username, pod_name, namespace)
                && grown.is_exempt(username, pod_name, namespace) ==> username == entry
        }),
{
    lemma_dimension_monotonic(settings.exempt_usernames, entry, username);
}

/// Adding an entry to a non-empty exempt-pod-names set, holding the other
/// sets fixed, never revokes an exemption, and can newly grant one only to
/// triples whose pod name is exactly the added entry.
pub proof fn lemma_exempt_monotonic_pod_names(
    settings: SettingsView,
    entry: Seq<char>,
    username: Seq<char>,
    pod_name: Seq<char>,
    namespace: Seq<char>,
)
    requires
        !settings.exempt_pod_names.is_empty(),
    ensures
        ({
            let grown = SettingsView {
                exempt_usernames: settings.exempt_usernames,
                exempt_pod_names: settings.exempt_pod_names.insert(entry),
                exempt_namespaces: settings.exempt_namespaces,
            };
            &&& settings.is_exempt(username, pod_name, namespace)
                ==> grown.is_exempt(username, pod_name, namespace)
            &&& !settings.is_exempt(username, pod_name, namespace)
                && grown.is_exempt(username, pod_name, namespace) ==> pod_name == entry
        }),
{
    lemma_dimension_monotonic(settings.exempt_pod_names, entry, pod_name);
}

/// Adding an entry to a non-empty exempt-namespaces set, holding the other
/// sets fixed, never revokes an exemption, and can newly grant one only to
/// triples whose namespace is exactly the added entry.
pub proof fn lemma_exempt_monotonic_namespaces(
    settings: SettingsView,
    entry: Seq<char>,
    username: Seq<char>,
    pod_name: Seq<char>,
    namespace: Seq<char>,
)
    requires
        !settings.exempt_namespaces.is_empty(),
    ensures
        ({
            let grown = SettingsView {
                exempt_usernames: settings.exempt_usernames,
                exempt_pod_names: settings.exempt_pod_names,
                exempt_namespaces: settings.exempt_namespaces.insert(entry),
            };
            &&& settings.is_exempt(username, pod_name, namespace)
                ==> grown.is_exempt(username, pod_name, namespace)
            &&& !settings.is_exempt(username, pod_name, namespace)
                && grown.is_exempt(username, pod_name, namespace) ==> namespace == entry
        }),
{
    lemma_dimension_monotonic(settings.exempt_namespaces, entry, namespace);
}

/// Membership test: whether some entry of `values` equals `value`.
fn contains_string(values: &Vec<String>, value: &String) -> (found: bool)
    ensures
        found == seq_contains_string(values@, value@),
{
    let mut i: usize = 0;
    while i < values.len()
        invariant
            i <= values@.len(),
            forall|j: int| 0 <= j < i ==> values@[j]@ != value@,
        decreases values@.len() - i,
    {
        if values[i].eq(value) {
            return true;
        }
        i = i + 1;
    }
    false
}

/// Whether one dimension has any entry configured.
fn dimension_configured(exempt: &Option<Vec<String>>) -> (configured: bool)
    ensures
        configured == !option_string_set(*exempt).is_empty(),
{
    proof {
        match exempt {
            Some(values) => lemma_string_set_characterization(values@, Seq::empty()),
            None => {},
        }
    }
    match exempt {
        None => false,
        Some(values) => values.len() > 0,
    }
}

/// One dimension of the exemption test, on the configured value itself.
fn dimension_allows(exempt: &Option<Vec<String>>, value: &String) -> (allowed: bool)
    ensures
        allowed == dimension_passes(option_string_set(*exempt), value@),
{
    proof {
        match exempt {
            Some(values) => lemma_string_set_characterization(values@, value@),
            None => {},
        }
    }
    match exempt {
        None => true,
        Some(values) => values.len() == 0 || contains_string(values, value),
    }
}

impl Settings {
    /// Whether the given user, acting on the given pod in the given
    /// namespace, is covered by the configured exemptions: some set must be
    /// configured, and every dimension must either be unconfigured or list
    /// the value exactly.
    pub fn exempt(&self, username: &String, pod_name: &String, namespace: &String) -> (exempt: bool)
        ensures
            exempt == self@.is_exempt(username@, pod_name@, namespace@),
    {
        let configured = dimension_configured(&self.exempt_usernames)
            || dimension_configured(&self.exempt_pod_names)
            || dimension_configured(&self.exempt_namespaces);
        configured
            && dimension_allows(&self.exempt_usernames, username)
            && dimension_allows(&self.exempt_pod_names, pod_name)
            && dimension_allows(&self.exempt_namespaces, namespace)
    }

    /// Configuration validation: every combination of present and absent
    /// sets is valid, so validation never rejects.
    pub fn validate(&self) -> (result: Result<(), String>)
        ensures
            result is Ok,
    {
        Ok(())
    }
}

impl Default for Settings {
    /// The default configuration has no set configured in any dimension.
    fn default() -> (settings: Settings)
        ensures
            settings.exempt_usernames is None,
            settings.exempt_pod_names is None,
            settings.exempt_namespaces is None,
    {
        Settings { exempt_usernames: None, exempt_pod_names: None, exempt_namespaces: None }
    }
}

} // verus!
