use vstd::prelude::*;

verus! {

/// The canonical text of the language identifier that `unic_langid` parses from `s`
/// (language, then script, region and variants, joined by `-`), or `None` where it
/// does not parse.
pub uninterp spec fn langid_canonical(s: Seq<char>) -> Option<Seq<char>>;

/// Parses `s` with `unic_langid`'s `FromStr` for `LanguageIdentifier` and writes the
/// identifier back with its `Display`. Claimed: the result is `langid_canonical` of the
/// text, a function of the text alone. Nothing is claimed of which texts parse.
#[verifier::external_body]
fn parse_langid(s: &str) -> (r: Option<String>)
    ensures
        match r {
            Some(c) => langid_canonical(s@) == Some(c@),
            None => langid_canonical(s@) is None,
        },
{
    match s.parse::<unic_langid::LanguageIdentifier>() {
        Ok(id) => Some(id.to_string()),
        Err(_) => None,
    }
}

/// What the `locale` console command did.
#[derive(Debug, Clone, PartialEq, Eq)]
pub enum LocaleOutcome {
    /// Not exactly one argument: the usage is shown.
    Usage,
    /// The argument is no language identifier.
    Invalid,
    /// A valid identifier for which no translation was loaded.
    Unsupported,
    /// The identifier, in canonical form, is now the requested locale.
    Requested(String),
}

/// Whether `id` is one of `supported`.
pub open spec fn spec_supported(supported: Seq<Seq<char>>, id: Seq<char>) -> bool {
    exists|i: int| 0 <= i < supported.len() && supported[i] == id
}

fn is_supported(supported: &Vec<String>, id: &String) -> (b: bool)
    ensures
        b == spec_supported(supported@.map_values(|s: String| s@), id@),
{
    let ghost view = supported@.map_values(|s: String| s@);
    let mut i: usize = 0;
    while i < supported.len()
        invariant
            i <= supported@.len(),
            view == supported@.map_values(|s: String| s@),
            forall|k: int| 0 <= k < i ==> view[k] != id@,
        decreases supported@.len() - i,
    {
        if supported[i] == *id {
            assert(view[i as int] == id@);
            return true;
        }
        i = i + 1;
    }
    false
}

/// The outcome of a parsed `locale` argument: `None` where it did not parse, else
/// requested where its canonical form is among the `supported` ones (given in canonical
/// form), else unsupported.
pub fn apply_locale_choice(parsed: Option<String>, supported: &Vec<String>) -> (out: LocaleOutcome)
    ensures
        match parsed {
            None => out == LocaleOutcome::Invalid,
            Some(id) => if spec_supported(supported@.map_values(|s: String| s@), id@) {
                out matches LocaleOutcome::Requested(r) && r@ == id@
            } else {
                out == LocaleOutcome::Unsupported
            },
        },
{
    match parsed {
        None => LocaleOutcome::Invalid,
        Some(id) => if is_supported(supported, &id) {
            LocaleOutcome::Requested(id)
        } else {
            LocaleOutcome::Unsupported
        },
    }
}

/// The `locale <locale>` console command: with one argument that names a supported
/// language, that language becomes the requested locale.
pub fn cli_locale(args: &Vec<String>, supported: &Vec<String>) -> (out: LocaleOutcome)
    ensures
        args@.len() != 1 ==> out == LocaleOutcome::Usage,
        args@.len() == 1 ==> match langid_canonical(args@[0]@) {
            None => out == LocaleOutcome::Invalid,
            Some(id) => if spec_supported(supported@.map_values(|s: String| s@), id) {
                out matches LocaleOutcome::Requested(r) && r@ == id
            } else {
                out == LocaleOutcome::Unsupported
            },
        },
{
    if args.len() != 1 {
        return LocaleOutcome::Usage;
    }
    let parsed = parse_langid(args[0].as_str());
    apply_locale_choice(parsed, supported)
}

/// Which texts are refreshed this frame.
#[derive(Debug, Clone, Copy, PartialEq, Eq, Structural)]
pub struct L10nRefresh {
    /// Rebuild the translations from the loaded bundles.
    pub regenerate: bool,
    /// Refresh every localised text, not only the new or changed ones.
    pub update_all: bool,
}

/// The translations are rebuilt when the requested language changed or a bundle was
/// (re)loaded, and then every text is refreshed; otherwise only new or changed texts are.
pub fn resolve_l10n(locale_changed: bool, bundle_events: bool) -> (r: L10nRefresh)
    ensures
        r.regenerate == (locale_changed || bundle_events),
        r.update_all == r.regenerate,
{
    let regenerate = locale_changed || bundle_events;
    L10nRefresh { regenerate, update_all: regenerate }
}

/// The text shown for a key: its translation, or the key itself where there is none.
pub fn localized_text(translation: Option<String>, key: &String) -> (text: String)
    ensures
        text@ == (match translation {
            Some(t) => t@,
            None => key@,
        }),
{
    match translation {
        Some(t) => t,
        None => key.clone(),
    }
}

/// What loading the translations does this frame.
#[derive(Debug, Clone, Copy, PartialEq, Eq, Structural)]
pub enum L10nInitStep {
    /// Ask for the folder of translations.
    LoadFolder,
    /// Collect the languages and build the translations from the loaded folder.
    Build,
    /// The folder is still loading.
    Wait,
    /// Everything is loaded.
    Done,
}

/// One frame of loading the translations: ask for the folder once, build once it is
/// loaded, and report progress as done from then on. Returns the step and whether
/// loading is done afterwards.
pub fn init_l10n(done: bool, folder_requested: bool, folder_loaded: bool) -> (r: (L10nInitStep, bool))
    ensures
        r == (if done {
            (L10nInitStep::Done, true)
        } else if !folder_requested {
            (L10nInitStep::LoadFolder, false)
        } else if folder_loaded {
            (L10nInitStep::Build, true)
        } else {
            (L10nInitStep::Wait, false)
        }),
{
    if done {
        (L10nInitStep::Done, true)
    } else if !folder_requested {
        (L10nInitStep::LoadFolder, false)
    } else if folder_loaded {
        (L10nInitStep::Build, true)
    } else {
        (L10nInitStep::Wait, false)
    }
}

} // verus!
