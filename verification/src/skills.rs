//! Looking for skills and installing them.

use vstd::prelude::*;

use crate::app::{App, AppView, Overlay, OverlayView};
use crate::base::{
    duplicate_all, duplicate_opt, lemma_skip_one, lemma_views_first, lemma_views_push, opt_view,
    views, Duplicate,
};
use crate::cache::CacheInvalidation;
use crate::chars::{lowercase, occurs_in, text_contains, text_lowercase};
use crate::data::UiData;
use crate::text::{decimal, decimal_text, joined, Text, TextKey, TextView, ToastKind};
use crate::text_edit::{eq_ignore_ascii_case, same_ignoring_ascii_case, trim, trimmed};

verus! {

/// Where skills are looked for.
#[derive(Debug, Clone, Copy, PartialEq, Eq, Structural)]
pub enum SkillsDiscoverSource {
    Repos,
    Marketplace,
}

/// How many skills the marketplace is asked for, and how many it passes over.
pub const MARKETPLACE_LIMIT: usize = 50;

pub const MARKETPLACE_OFFSET: usize = 0;

/// A skill as it is listed.
#[derive(Debug)]
pub struct Skill {
    pub key: String,
    pub name: String,
    pub description: String,
    pub directory: String,
    pub readme_url: Option<String>,
    pub installed: bool,
    pub repo_owner: Option<String>,
    pub repo_name: Option<String>,
    pub repo_branch: Option<String>,
}

#[verifier::ext_equal]
pub struct SkillView {
    pub key: Seq<char>,
    pub name: Seq<char>,
    pub description: Seq<char>,
    pub directory: Seq<char>,
    pub readme_url: Option<Seq<char>>,
    pub installed: bool,
    pub repo_owner: Option<Seq<char>>,
    pub repo_name: Option<Seq<char>>,
    pub repo_branch: Option<Seq<char>>,
}

impl View for Skill {
    type V = SkillView;

    open spec fn view(&self) -> SkillView {
        SkillView {
            key: self.key@,
            name: self.name@,
            description: self.description@,
            directory: self.directory@,
            readme_url: opt_view(self.readme_url),
            installed: self.installed,
            repo_owner: opt_view(self.repo_owner),
            repo_name: opt_view(self.repo_name),
            repo_branch: opt_view(self.repo_branch),
        }
    }
}

impl Duplicate for Skill {
    fn duplicate(&self) -> (copy: Skill) {
        Skill {
            key: self.key.duplicate(),
            name: self.name.duplicate(),
            description: self.description.duplicate(),
            directory: self.directory.duplicate(),
            readme_url: duplicate_opt(&self.readme_url),
            installed: self.installed,
            repo_owner: duplicate_opt(&self.repo_owner),
            repo_name: duplicate_opt(&self.repo_name),
            repo_branch: duplicate_opt(&self.repo_branch),
        }
    }
}

/// What was found before.
#[derive(Debug)]
pub struct DiscoveredSkills {
    pub source: SkillsDiscoverSource,
    /// In lower case and without blanks around it.
    pub query: String,
    pub skills: Vec<Skill>,
}

#[verifier::ext_equal]
pub struct DiscoveredView {
    pub source: SkillsDiscoverSource,
    pub query: Seq<char>,
    pub skills: Seq<SkillView>,
}

impl View for DiscoveredSkills {
    type V = DiscoveredView;

    open spec fn view(&self) -> DiscoveredView {
        DiscoveredView { source: self.source, query: self.query@, skills: views(self.skills@) }
    }
}

/// The search for skills as the screen shows it.
#[derive(Debug)]
pub struct SkillsDiscovery {
    pub loading: bool,
    pub active_request_id: Option<u64>,
    pub results: Vec<Skill>,
    pub selected: usize,
    pub query: String,
    pub source: SkillsDiscoverSource,
    /// One entry for each place and query.
    pub cache: Vec<DiscoveredSkills>,
}

#[verifier::ext_equal]
pub struct DiscoveryView {
    pub loading: bool,
    pub active_request_id: Option<u64>,
    pub results: Seq<SkillView>,
    pub selected: usize,
    pub query: Seq<char>,
    pub source: SkillsDiscoverSource,
    pub cache: Seq<DiscoveredView>,
}

impl View for SkillsDiscovery {
    type V = DiscoveryView;

    open spec fn view(&self) -> DiscoveryView {
        DiscoveryView {
            loading: self.loading,
            active_request_id: self.active_request_id,
            results: views(self.results@),
            selected: self.selected,
            query: self.query@,
            source: self.source,
            cache: views(self.cache@),
        }
    }
}

impl DiscoveryView {
    pub open spec fn nothing() -> DiscoveryView {
        DiscoveryView {
            loading: false,
            active_request_id: None,
            results: Seq::empty(),
            selected: 0,
            query: Seq::empty(),
            source: SkillsDiscoverSource::Repos,
            cache: Seq::empty(),
        }
    }
}

impl SkillsDiscovery {
    pub fn new() -> (discovery: SkillsDiscovery)
        ensures
            discovery@ == DiscoveryView::nothing(),
    {
        let discovery = SkillsDiscovery {
            loading: false,
            active_request_id: None,
            results: Vec::new(),
            selected: 0,
            query: String::new(),
            source: SkillsDiscoverSource::Repos,
            cache: Vec::new(),
        };
        assert(discovery@ =~= DiscoveryView::nothing());
        discovery
    }
}

/// A skill that was installed.
#[derive(Debug)]
pub struct InstalledSkill {
    pub id: String,
    pub directory: String,
    pub repo_owner: Option<String>,
    pub repo_name: Option<String>,
}

#[derive(Debug)]
pub enum SkillsReq {
    Discover { request_id: u64, query: String, source: SkillsDiscoverSource, force: bool },
    Install { spec: String, app: String },
}

#[allow(inconsistent_fields)]
#[derive(Debug)]
pub enum SkillsMsg {
    DiscoverFinished {
        request_id: u64,
        query: String,
        source: SkillsDiscoverSource,
        result: Result<Vec<Skill>, String>,
    },
    InstallFinished { spec: String, result: Result<InstalledSkill, String> },
}

// What was found is shown and kept.

/// What was found before, without what was found for one place and query.
pub open spec fn without_query(
    cache: Seq<DiscoveredView>,
    source: SkillsDiscoverSource,
    query: Seq<char>,
) -> Seq<DiscoveredView>
    decreases cache.len(),
{
    if cache.len() == 0 {
        cache
    } else {
        let rest = without_query(cache.drop_last(), source, query);
        if cache.last().source == source && cache.last().query == query {
            rest
        } else {
            rest.push(cache.last())
        }
    }
}

/// What is made of a search. One that is not waited for counts for nothing.
pub open spec fn discovery_received(
    app: AppView,
    request_id: u64,
    query: Seq<char>,
    source: SkillsDiscoverSource,
    result: Result<Vec<Skill>, String>,
) -> AppView {
    let skills = app.skills;
    let over = DiscoveryView { loading: false, active_request_id: None, ..skills };
    let key = text_lowercase(trimmed(query));
    if skills.active_request_id != Some(request_id) {
        app
    } else {
        match result {
            Ok(found) => AppView {
                overlay: OverlayView::Absent,
                skills: DiscoveryView {
                    results: views(found@),
                    selected: 0,
                    query,
                    source,
                    cache: without_query(skills.cache, source, key).push(
                        DiscoveredView { source, query: key, skills: views(found@) },
                    ),
                    ..over
                },
                ..app
            }.told(
                ToastKind::Success,
                TextView::plain(TextKey::SkillsDiscoverFinished(found@.len() as usize)),
            ),
            Err(error) => AppView {
                overlay: OverlayView::Absent,
                skills: over,
                ..app
            }.told(ToastKind::Error, TextView::with(TextKey::SkillsDiscoverFailed, error@)),
        }
    }
}

fn keep_discovered(
    cache: Vec<DiscoveredSkills>,
    source: SkillsDiscoverSource,
    query: String,
    skills: &Vec<Skill>,
) -> (after: Vec<DiscoveredSkills>)
    ensures
        views(after@) == without_query(views(cache@), source, query@).push(
            DiscoveredView { source, query: query@, skills: views(skills@) },
        ),
{
    let ghost all = views(cache@);
    let mut rest = cache;
    let mut kept: Vec<DiscoveredSkills> = Vec::new();
    let ghost mut seen: int = 0;
    assert(all.skip(0) =~= all);
    assert(all.take(0) =~= Seq::<DiscoveredView>::empty());
    assert(views(kept@) =~= all.take(0));
    while rest.len() > 0
        invariant
            0 <= seen <= all.len(),
            views(rest@) == all.skip(seen),
            views(kept@) == without_query(all.take(seen), source, query@),
        decreases rest@.len(),
    {
        proof {
            lemma_views_first(rest@);
            lemma_skip_one(all, seen);
            seen = seen + 1;
        }
        let entry = rest.remove(0);
        if !(entry.source == source && entry.query == query) {
            proof {
                lemma_views_push(kept@, entry);
            }
            kept.push(entry);
        }
    }
    assert(all.take(seen) =~= all);
    let entry = DiscoveredSkills { source, query, skills: duplicate_all(skills) };
    proof {
        lemma_views_push(kept@, entry);
    }
    kept.push(entry);
    kept
}

fn take_discovery(
    app: &mut App,
    request_id: u64,
    query: String,
    source: SkillsDiscoverSource,
    result: Result<Vec<Skill>, String>,
)
    ensures
        final(app)@ == discovery_received(old(app)@, request_id, query@, source, result),
{
    let awaited = match app.skills.active_request_id {
        Some(active) => active == request_id,
        None => false,
    };
    if !awaited {
        return ;
    }
    app.overlay = Overlay::Absent;
    app.skills.loading = false;
    app.skills.active_request_id = None;
    match result {
        Ok(found) => {
            let key = lowercase(trim(query.as_str()));
            let mut cache: Vec<DiscoveredSkills> = Vec::new();
            cache.append(&mut app.skills.cache);
            assert(views(cache@) =~= old(app)@.skills.cache);
            app.skills.cache = keep_discovered(cache, source, key, &found);
            let count = found.len();
            app.skills.results = found;
            app.skills.selected = 0;
            app.skills.query = query;
            app.skills.source = source;
            app.push_toast(
                Text::plain(TextKey::SkillsDiscoverFinished(count)),
                ToastKind::Success,
            );
        },
        Err(error) => {
            app.push_toast(
                Text::with(TextKey::SkillsDiscoverFailed, error.as_str()),
                ToastKind::Error,
            );
        },
    }
}

// A skill is installed.

/// The skill counts as installed where it is the one that was.
pub open spec fn marked(skill: SkillView, id: Seq<char>, directory: Seq<char>) -> SkillView {
    if skill.key == id || same_ignoring_ascii_case(skill.directory, directory) {
        SkillView { installed: true, ..skill }
    } else {
        skill
    }
}

pub open spec fn all_marked(skills: Seq<SkillView>, id: Seq<char>, directory: Seq<char>) -> Seq<
    SkillView,
> {
    Seq::new(skills.len(), |i: int| marked(skills[i], id, directory))
}

pub open spec fn cache_marked(
    cache: Seq<DiscoveredView>,
    id: Seq<char>,
    directory: Seq<char>,
) -> Seq<DiscoveredView> {
    Seq::new(
        cache.len(),
        |i: int| DiscoveredView { skills: all_marked(cache[i].skills, id, directory), ..cache[i] },
    )
}

fn mark_skills(skills: &mut Vec<Skill>, installed: &InstalledSkill)
    ensures
        views(final(skills)@) == all_marked(
            views(old(skills)@),
            installed.id@,
            installed.directory@,
        ),
{
    let ghost before = views(skills@);
    let mut i: usize = 0;
    while i < skills.len()
        invariant
            i <= skills@.len(),
            skills@.len() == before.len(),
            forall|j: int|
                0 <= j < i ==> (#[trigger] skills@[j])@ == marked(
                    before[j],
                    installed.id@,
                    installed.directory@,
                ),
            forall|j: int| i <= j < before.len() ==> (#[trigger] skills@[j])@ == before[j],
        decreases skills@.len() - i,
    {
        if skills[i].key == installed.id || eq_ignore_ascii_case(
            skills[i].directory.as_str(),
            installed.directory.as_str(),
        ) {
            skills[i].installed = true;
        }
        i = i + 1;
    }
    assert(views(skills@) =~= all_marked(before, installed.id@, installed.directory@));
}

fn mark_cache(cache: &mut Vec<DiscoveredSkills>, installed: &InstalledSkill)
    ensures
        views(final(cache)@) == cache_marked(
            views(old(cache)@),
            installed.id@,
            installed.directory@,
        ),
{
    let ghost before = views(cache@);
    let mut i: usize = 0;
    while i < cache.len()
        invariant
            i <= cache@.len(),
            cache@.len() == before.len(),
            forall|j: int|
                0 <= j < i ==> (#[trigger] cache@[j])@ == cache_marked(
                    before,
                    installed.id@,
                    installed.directory@,
                )[j],
            forall|j: int| i <= j < before.len() ==> (#[trigger] cache@[j])@ == before[j],
        decreases cache@.len() - i,
    {
        mark_skills(&mut cache[i].skills, installed);
        i = i + 1;
    }
    assert(views(cache@) =~= cache_marked(before, installed.id@, installed.directory@));
}

/// What is left to do after a report of the skills worker.
#[derive(Debug)]
pub enum SkillsStep {
    Done,
    /// A skill is installed: everything has to be loaded anew.
    Reload(InstalledSkill),
}

/// What is made of a report, and what is to be done next.
pub open spec fn skills_received(
    before: AppView,
    msg: SkillsMsg,
    after: AppView,
    step: SkillsStep,
) -> bool {
    match msg {
        SkillsMsg::DiscoverFinished { request_id, query, source, result } => {
            &&& step is Done
            &&& after == discovery_received(before, request_id, query@, source, result)
        },
        SkillsMsg::InstallFinished { spec, result } => {
            let closed = AppView { overlay: OverlayView::Absent, ..before };
            match result {
                Ok(installed) => step == SkillsStep::Reload(installed) && after == closed,
                Err(error) => step is Done && after == closed.told(
                    ToastKind::Error,
                    TextView::with_two(TextKey::SkillInstallFailed, spec@, error@),
                ),
            }
        },
    }
}

/// The skills worker has reported.
pub fn handle_skills_msg(app: &mut App, msg: SkillsMsg) -> (step: SkillsStep)
    ensures
        skills_received(old(app)@, msg, final(app)@, step),
{
    match msg {
        SkillsMsg::DiscoverFinished { request_id, query, source, result } => {
            take_discovery(app, request_id, query, source, result);
            SkillsStep::Done
        },
        SkillsMsg::InstallFinished { spec, result } => {
            app.overlay = Overlay::Absent;
            match result {
                Ok(installed) => SkillsStep::Reload(installed),
                Err(error) => {
                    app.push_toast(
                        Text::with_two(
                            TextKey::SkillInstallFailed,
                            spec.as_str(),
                            error.as_str(),
                        ),
                        ToastKind::Error,
                    );
                    SkillsStep::Done
                },
            }
        },
    }
}

/// What comes of an installed skill, once everything was loaded anew.
pub open spec fn skill_installed(
    before: (AppView, UiData),
    installed: InstalledSkill,
    loaded: Result<UiData, String>,
    after: (AppView, UiData),
    result: Result<CacheInvalidation, String>,
) -> bool {
    match loaded {
        Err(error) => {
            &&& result == Err::<CacheInvalidation, String>(error)
            &&& after == before
        },
        Ok(loaded) => {
            let id = installed.id@;
            let directory = installed.directory@;
            &&& result == Ok::<CacheInvalidation, String>(CacheInvalidation::DataReloaded)
            &&& after.1 == loaded
            &&& after.0 == (AppView {
                skills: DiscoveryView {
                    results: all_marked(before.0.skills.results, id, directory),
                    cache: cache_marked(before.0.skills.cache, id, directory),
                    ..before.0.skills
                },
                ..before.0
            }).told(ToastKind::Success, TextView::with(TextKey::SkillInstalled, directory))
        },
    }
}

/// Everything was loaded anew after a skill was installed. It counts as
/// installed wherever it is listed.
pub fn finish_skill_install(
    app: &mut App,
    data: &mut UiData,
    installed: InstalledSkill,
    loaded: Result<UiData, String>,
) -> (result: Result<CacheInvalidation, String>)
    ensures
        skill_installed(
            (old(app)@, *old(data)),
            installed,
            loaded,
            (final(app)@, *final(data)),
            result,
        ),
{
    match loaded {
        Err(error) => Err(error),
        Ok(loaded) => {
            *data = loaded;
            mark_skills(&mut app.skills.results, &installed);
            mark_cache(&mut app.skills.cache, &installed);
            app.push_toast(
                Text::with(TextKey::SkillInstalled, installed.directory.as_str()),
                ToastKind::Success,
            );
            Ok(CacheInvalidation::DataReloaded)
        },
    }
}

// The search itself.

/// Whether a skill answers a query, which is in lower case.
pub open spec fn skill_answers(skill: SkillView, query: Seq<char>) -> bool {
    ||| occurs_in(text_lowercase(skill.name), query)
    ||| occurs_in(text_lowercase(skill.directory), query)
    ||| occurs_in(text_lowercase(skill.description), query)
    ||| occurs_in(text_lowercase(skill.key), query)
}

pub open spec fn answering(skills: Seq<SkillView>, query: Seq<char>) -> Seq<SkillView>
    decreases skills.len(),
{
    if skills.len() == 0 {
        skills
    } else {
        let rest = answering(skills.drop_last(), query);
        if skill_answers(skills.last(), query) {
            rest.push(skills.last())
        } else {
            rest
        }
    }
}

/// The skills that answer what the user typed; a blank query asks for all.
pub open spec fn narrowed(skills: Seq<SkillView>, typed: Seq<char>) -> Seq<SkillView> {
    let query = text_lowercase(trimmed(typed));
    if query.len() == 0 {
        skills
    } else {
        answering(skills, query)
    }
}

fn answers(skill: &Skill, query: &str) -> (result: bool)
    ensures
        result == skill_answers(skill@, query@),
{
    text_contains(lowercase(skill.name.as_str()).as_str(), query) || text_contains(
        lowercase(skill.directory.as_str()).as_str(),
        query,
    ) || text_contains(lowercase(skill.description.as_str()).as_str(), query) || text_contains(
        lowercase(skill.key.as_str()).as_str(),
        query,
    )
}

/// Keeps the skills that answer what the user typed.
pub fn narrow_skills(skills: Vec<Skill>, typed: &str) -> (kept: Vec<Skill>)
    ensures
        views(kept@) == narrowed(views(skills@), typed@),
{
    let query = lowercase(trim(typed));
    if query.as_str().is_empty() {
        return skills;
    }
    let ghost all = views(skills@);
    let mut rest = skills;
    let mut kept: Vec<Skill> = Vec::new();
    let ghost mut seen: int = 0;
    assert(all.skip(0) =~= all);
    assert(all.take(0) =~= Seq::<SkillView>::empty());
    assert(views(kept@) =~= all.take(0));
    while rest.len() > 0
        invariant
            0 <= seen <= all.len(),
            views(rest@) == all.skip(seen),
            views(kept@) == answering(all.take(seen), query@),
        decreases rest@.len(),
    {
        proof {
            lemma_views_first(rest@);
            lemma_skip_one(all, seen);
            seen = seen + 1;
        }
        let skill = rest.remove(0);
        if answers(&skill, query.as_str()) {
            proof {
                lemma_views_push(kept@, skill);
            }
            kept.push(skill);
        }
    }
    assert(all.take(seen) =~= all);
    kept
}

/// A skill as a marketplace lists it.
#[derive(Debug)]
pub struct MarketSkill {
    pub key: String,
    pub name: String,
    pub directory: String,
    pub readme_url: Option<String>,
    pub repo_owner: String,
    pub repo_name: String,
    pub repo_branch: String,
    pub installs: u64,
}

pub open spec fn or_empty(text: Option<Seq<char>>) -> Seq<char> {
    match text {
        Some(text) => text,
        None => Seq::empty(),
    }
}

/// Whether a skill of the marketplace is the one that was installed, whatever
/// the case of letters.
pub open spec fn is_same_skill(skill: MarketSkill, installed: InstalledSkill) -> bool {
    &&& text_lowercase(skill.directory@) == text_lowercase(installed.directory@)
    &&& text_lowercase(skill.repo_owner@) == text_lowercase(
        or_empty(opt_view(installed.repo_owner)),
    )
    &&& text_lowercase(skill.repo_name@) == text_lowercase(
        or_empty(opt_view(installed.repo_name)),
    )
}

pub open spec fn is_installed(skill: MarketSkill, index: Seq<InstalledSkill>) -> bool {
    exists|i: int| 0 <= i < index.len() && is_same_skill(skill, #[trigger] index[i])
}

/// A skill of the marketplace, as it is listed.
pub open spec fn listed(skill: MarketSkill, index: Seq<InstalledSkill>) -> SkillView {
    SkillView {
        key: skill.key@,
        name: skill.name@,
        description: decimal_text(skill.installs as nat) + " installs"@,
        directory: skill.directory@,
        readme_url: opt_view(skill.readme_url),
        installed: is_installed(skill, index),
        repo_owner: Some(skill.repo_owner@),
        repo_name: Some(skill.repo_name@),
        repo_branch: Some(skill.repo_branch@),
    }
}

fn lower_or_empty(text: &Option<String>) -> (lowered: String)
    ensures
        lowered@ == text_lowercase(or_empty(opt_view(*text))),
{
    match text {
        Some(text) => lowercase(text.as_str()),
        None => {
            proof {
                reveal_strlit("");
                assert(""@ =~= Seq::<char>::empty());
            }
            lowercase("")
        },
    }
}

fn same_skill(skill: &MarketSkill, installed: &InstalledSkill) -> (result: bool)
    ensures
        result == is_same_skill(*skill, *installed),
{
    lowercase(skill.directory.as_str()) == lowercase(installed.directory.as_str()) && lowercase(
        skill.repo_owner.as_str(),
    ) == lower_or_empty(&installed.repo_owner) && lowercase(skill.repo_name.as_str())
        == lower_or_empty(&installed.repo_name)
}

fn has_installed(skill: &MarketSkill, index: &Vec<InstalledSkill>) -> (result: bool)
    ensures
        result == is_installed(*skill, index@),
{
    let mut i: usize = 0;
    while i < index.len()
        invariant
            i <= index@.len(),
            forall|j: int| 0 <= j < i ==> !is_same_skill(*skill, #[trigger] index@[j]),
        decreases index@.len() - i,
    {
        if same_skill(skill, &index[i]) {
            return true;
        }
        i = i + 1;
    }
    false
}

/// Lists skills of the marketplace.
pub fn list_market_skills(found: &Vec<MarketSkill>, index: &Vec<InstalledSkill>) -> (skills: Vec<
    Skill,
>)
    ensures
        views(skills@) == Seq::new(found@.len(), |i: int| listed(found@[i], index@)),
{
    let mut skills: Vec<Skill> = Vec::new();
    let mut i: usize = 0;
    while i < found.len()
        invariant
            i <= found@.len(),
            skills@.len() == i,
            forall|j: int| 0 <= j < i ==> (#[trigger] skills@[j])@ == listed(found@[j], index@),
        decreases found@.len() - i,
    {
        let skill = &found[i];
        let count = decimal(skill.installs);
        let listed_skill = Skill {
            installed: has_installed(skill, index),
            key: skill.key.duplicate(),
            name: skill.name.duplicate(),
            description: joined(count.as_str(), " installs"),
            directory: skill.directory.duplicate(),
            readme_url: duplicate_opt(&skill.readme_url),
            repo_owner: Some(skill.repo_owner.duplicate()),
            repo_name: Some(skill.repo_name.duplicate()),
            repo_branch: Some(skill.repo_branch.duplicate()),
        };
        skills.push(listed_skill);
        i = i + 1;
    }
    assert(views(skills@) =~= Seq::new(found@.len(), |i: int| listed(found@[i], index@)));
    skills
}

/// What was found in the place that was searched.
#[derive(Debug)]
pub enum FoundSkills {
    Repos(Vec<Skill>),
    Marketplace { found: Vec<MarketSkill>, index: Vec<InstalledSkill> },
}

impl FoundSkills {
    pub open spec fn skills(self) -> Seq<SkillView> {
        match self {
            FoundSkills::Repos(skills) => views(skills@),
            FoundSkills::Marketplace { found, index } => Seq::new(
                found@.len(),
                |i: int| listed(found@[i], index@),
            ),
        }
    }
}

/// What is answered to a search: what was found, narrowed by the query.
pub fn answer_discover(
    request_id: u64,
    query: String,
    source: SkillsDiscoverSource,
    found: Result<FoundSkills, String>,
) -> (msg: SkillsMsg)
    ensures
        msg matches SkillsMsg::DiscoverFinished {
            request_id: id,
            query: searched,
            source: place,
            result,
        } && id == request_id && searched == query && place == source && match (found, result) {
            (Ok(found), Ok(kept)) => views(kept@) == narrowed(found.skills(), query@),
            (Err(error), Err(told)) => told == error,
            _ => false,
        },
{
    let result = match found {
        Ok(FoundSkills::Repos(skills)) => Ok(narrow_skills(skills, query.as_str())),
        Ok(FoundSkills::Marketplace { found, index }) => Ok(
            narrow_skills(list_market_skills(&found, &index), query.as_str()),
        ),
        Err(error) => Err(error),
    };
    SkillsMsg::DiscoverFinished { request_id, query, source, result }
}

/// What is answered where the worker cannot work at all.
pub fn refuse_skills_req(req: SkillsReq, error: String) -> (msg: SkillsMsg)
    ensures
        msg == (match req {
            SkillsReq::Discover { request_id, query, source, .. } => SkillsMsg::DiscoverFinished {
                request_id,
                query,
                source,
                result: Err(error),
            },
            SkillsReq::Install { spec, .. } => SkillsMsg::InstallFinished {
                spec,
                result: Err(error),
            },
        }),
{
    match req {
        SkillsReq::Discover { request_id, query, source, .. } => SkillsMsg::DiscoverFinished {
            request_id,
            query,
            source,
            result: Err(error),
        },
        SkillsReq::Install { spec, .. } => SkillsMsg::InstallFinished {
            spec,
            result: Err(error),
        },
    }
}

/// Narrowing twice by the same query is narrowing once.
pub proof fn narrowing_is_idempotent(skills: Seq<SkillView>, query: Seq<char>)
    ensures
        answering(answering(skills, query), query) == answering(skills, query),
    decreases skills.len(),
{
    if skills.len() > 0 {
        let rest = answering(skills.drop_last(), query);
        narrowing_is_idempotent(skills.drop_last(), query);
        if skill_answers(skills.last(), query) {
            assert(rest.push(skills.last()).drop_last() =~= rest);
        }
    }
}

/// A search for skills that is not waited for changes nothing.
pub proof fn stale_discoveries_are_ignored(
    app: AppView,
    request_id: u64,
    query: Seq<char>,
    source: SkillsDiscoverSource,
    result: Result<Vec<Skill>, String>,
)
    requires
        app.skills.active_request_id != Some(request_id),
    ensures
        discovery_received(app, request_id, query, source, result) == app,
{
}

} // verus!
