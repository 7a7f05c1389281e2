//! The jobs of the session workers: what is refused, what is answered, when a
//! running scan shows what it has found, and where a selected session is looked
//! for in a new manifest.

use vstd::prelude::*;

use crate::base::Duplicate;
use crate::session_messages::{ManifestPage, PublishedManifest, SessionMsg};
use crate::session_rows::SessionIdentity;
use crate::sessions::{
    ManifestReader, SessionMessage, SessionMeta, SessionPageSource, SessionPageToken, PAGE_SIZE,
};
use crate::text::{decimal, decimal_text, joined};

verus! {

/// What a reader says of the manifest it reads.
#[derive(Debug)]
pub struct ReaderLabel {
    pub scope: String,
    pub generation: String,
    pub total_rows: usize,
    pub page_count: usize,
}

impl ReaderLabel {
    pub open spec fn describes(self, scope: Seq<char>, generation: Seq<char>) -> bool {
        self.scope@ == scope && self.generation@ == generation
    }

    /// Whether the reader reads a manifest.
    pub fn is_of(&self, scope: &String, generation: &String) -> (result: bool)
        ensures
            result == self.describes(scope@, generation@),
    {
        self.scope == *scope && self.generation == *generation
    }
}

/// Whether a job's number is not the lane's any more.
pub fn is_cancelled(current: u64, job: u64) -> (result: bool)
    ensures
        result == (current != job),
{
    current != job
}

// Pages.

/// What a page came to. A page is read only with a reader of its manifest.
pub fn page_result(
    token: &SessionPageToken,
    label: &ReaderLabel,
    loaded: Option<ManifestPage>,
) -> (result: Result<ManifestPage, String>)
    ensures
        if !label.describes(token.scope@, token.generation@) {
            &&& result matches Err(error)
            &&& error@ == "session manifest reader does not match its page token"@
        } else {
            match loaded {
                Some(page) => result == Ok::<ManifestPage, String>(page),
                None => result matches Err(error) && error@
                    == "session manifest page is unavailable"@,
            }
        },
{
    if !label.is_of(&token.scope, &token.generation) {
        return Err("session manifest reader does not match its page token".to_owned());
    }
    match loaded {
        Some(page) => Ok(page),
        None => Err("session manifest page is unavailable".to_owned()),
    }
}

// Messages.

/// What is reported of messages that were read: nothing, once others are wanted.
pub fn messages_answer(
    request_id: u64,
    key: String,
    result: Result<Vec<SessionMessage>, String>,
    current: u64,
    job: u64,
) -> (msg: Option<SessionMsg>)
    ensures
        msg == (if current == job {
            Some(SessionMsg::MessagesLoaded { request_id, key, result })
        } else {
            None
        }),
{
    if is_cancelled(current, job) {
        None
    } else {
        Some(SessionMsg::MessagesLoaded { request_id, key, result })
    }
}

// Searches.

/// Why a search is not made, if it is not.
pub open spec fn search_refusal(
    source: SessionPageSource,
    label: ReaderLabel,
    scope: Seq<char>,
    generation: Seq<char>,
    cancelled: bool,
) -> Option<Seq<char>> {
    if source != SessionPageSource::Base {
        Some("session query source is not a base manifest"@)
    } else if !label.describes(scope, generation) {
        Some("session query base reader does not match its token"@)
    } else if cancelled {
        Some("session query was cancelled"@)
    } else {
        None
    }
}

/// A search is made in the manifest of a scope, with a reader of that manifest.
pub fn search_check(
    base: &SessionPageToken,
    label: &ReaderLabel,
    cancelled: bool,
) -> (result: Result<(), String>)
    ensures
        match search_refusal(base.source, *label, base.scope@, base.generation@, cancelled) {
            Some(refusal) => result matches Err(error) && error@ == refusal,
            None => result is Ok,
        },
{
    match base.source {
        SessionPageSource::Base => {},
        SessionPageSource::Query => {
            return Err("session query source is not a base manifest".to_owned());
        },
    }
    if !label.is_of(&base.scope, &base.generation) {
        return Err("session query base reader does not match its token".to_owned());
    }
    if cancelled {
        return Err("session query was cancelled".to_owned());
    }
    Ok(())
}

/// What a job came to.
#[derive(Debug)]
pub enum JobOutcome<T> {
    Finished(Result<T, String>),
    /// It broke off in a panic.
    Panicked,
}

impl<T> JobOutcome<T> {
    /// The result of a job; `panicked` says what broke off.
    pub fn result(self, panicked: &str) -> (result: Result<T, String>)
        ensures
            match self {
                JobOutcome::Finished(finished) => result == finished,
                JobOutcome::Panicked => result matches Err(error) && error@ == panicked@,
            },
    {
        match self {
            JobOutcome::Finished(finished) => finished,
            JobOutcome::Panicked => Err(panicked.to_owned()),
        }
    }
}

/// What is reported of a search: nothing, once another is wanted.
pub fn search_answer(
    request_id: u64,
    scope_epoch: u64,
    base: SessionPageToken,
    query: String,
    query_namespace: String,
    outcome: JobOutcome<(PublishedManifest, ManifestReader)>,
    current: u64,
    job: u64,
) -> (msg: Option<SessionMsg>)
    ensures
        msg is Some == (current == job),
        msg matches Some(msg) ==> {
            &&& msg matches SessionMsg::QueryPublished {
                request_id: id,
                scope_epoch: epoch,
                scope,
                base_generation,
                query: searched,
                query_namespace: namespace,
                result,
            }
            &&& id == request_id && epoch == scope_epoch && scope == base.scope
            &&& base_generation == base.generation && searched == query
            &&& namespace == query_namespace
            &&& match outcome {
                JobOutcome::Finished(finished) => result == finished,
                JobOutcome::Panicked => result matches Err(error) && error@
                    == "session search panicked"@,
            }
        },
{
    if is_cancelled(current, job) {
        return None;
    }
    Some(
        SessionMsg::QueryPublished {
            request_id,
            scope_epoch,
            scope: base.scope,
            base_generation: base.generation,
            query,
            query_namespace,
            result: outcome.result("session search panicked"),
        },
    )
}

// Scans.

/// The first row of a scan is shown at once, the next ones at this count.
pub const SECOND_PREVIEW_AT: usize = 16;

/// When a scan shows what it has found so far: after the first row, and then
/// ever more rarely.
#[derive(Debug, Clone, Copy, PartialEq, Eq, Structural)]
pub struct PreviewSchedule {
    /// Whether anything is shown at all.
    pub needed: bool,
    pub seen: usize,
    pub last_preview: usize,
    pub next_preview_at: usize,
}

impl PreviewSchedule {
    /// Nothing is shown beforehand where the scope's old manifest is shown, or
    /// where the user asked for the scan.
    pub fn new(force: bool, opened: bool) -> (schedule: PreviewSchedule)
        ensures
            schedule == (PreviewSchedule {
                needed: !force && !opened,
                seen: 0,
                last_preview: 0,
                next_preview_at: 1,
            }),
            schedule.wf(),
    {
        PreviewSchedule { needed: !force && !opened, seen: 0, last_preview: 0, next_preview_at: 1 }
    }

    pub open spec fn wf(self) -> bool {
        self.last_preview <= self.seen && self.next_preview_at >= 1
    }

    /// The count after the one at which rows were just shown.
    pub open spec fn later(at: usize) -> int {
        if at == 1 {
            SECOND_PREVIEW_AT as int
        } else if at * 4 > usize::MAX {
            usize::MAX as int
        } else {
            at * 4
        }
    }

    /// Whether the next row makes the scan show what it has found.
    pub open spec fn due(self) -> bool {
        self.needed && (self.seen + 1 >= self.next_preview_at || self.seen
            >= self.next_preview_at)
    }

    /// What a row that was found leads to.
    pub open spec fn counted(self, after: Self, show: bool) -> bool {
        &&& after.wf()
        &&& show == self.due()
        &&& after.needed == self.needed
        &&& !self.needed ==> after == self
        &&& self.needed ==> after.seen == (if self.seen < usize::MAX {
            self.seen + 1
        } else {
            self.seen as int
        })
        &&& show ==> after.last_preview == after.seen && after.next_preview_at == Self::later(
            self.next_preview_at,
        )
        &&& !show ==> after.last_preview == self.last_preview && after.next_preview_at
            == self.next_preview_at
    }

    /// Another row was found. The result says whether the rows are shown now.
    pub fn row_found(&mut self) -> (show: bool)
        requires
            old(self).wf(),
        ensures
            old(self).counted(*final(self), show),
    {
        if !self.needed {
            return false;
        }
        self.seen = self.seen.saturating_add(1);
        if self.seen < self.next_preview_at {
            return false;
        }
        self.last_preview = self.seen;
        self.next_preview_at = if self.next_preview_at == 1 {
            SECOND_PREVIEW_AT
        } else {
            match self.next_preview_at.checked_mul(4) {
                Some(next) => next,
                None => usize::MAX,
            }
        };
        true
    }

    /// Whether rows have been found that were not shown.
    pub fn shows_rest(&self) -> (show: bool)
        ensures
            show == (self.needed && self.seen > self.last_preview),
    {
        self.needed && self.seen > self.last_preview
    }
}

/// Rows are shown ever more rarely: from one time to the next, the count grows
/// to at least four times what it was, as long as it can be counted.
pub proof fn previews_grow_rare(at: usize)
    requires
        at >= 1,
        at * 4 <= usize::MAX,
    ensures
        PreviewSchedule::later(at) >= at * 4,
{
}

/// The providers a scan goes through: all of those that are kept for the scope
/// of everything, else the one that the scope names.
pub fn scan_providers(scope: &String, every: Vec<String>) -> (providers: Vec<String>)
    ensures
        scope@ == "all"@ ==> providers == every,
        scope@ != "all"@ ==> providers@.len() == 1 && providers@[0]@ == scope@,
{
    if *scope == "all".to_owned() {
        every
    } else {
        vec![scope.duplicate()]
    }
}

/// What one provider's part of a scan came to.
pub fn provider_scan_result(push_error: Option<String>, stopped: bool) -> (result: Result<
    (),
    String,
>)
    ensures
        match push_error {
            Some(error) => result == Err::<(), String>(error),
            None => if stopped {
                result matches Err(error) && error@ == "session manifest scan was stopped"@
            } else {
                result is Ok
            },
        },
{
    match push_error {
        Some(error) => Err(error),
        None => if stopped {
            Err("session manifest scan was stopped".to_owned())
        } else {
            Ok(())
        },
    }
}

/// A scan goes on only while no other is wanted.
pub fn scan_check(current: u64, job: u64) -> (result: Result<(), String>)
    ensures
        result is Ok == (current == job),
        result matches Err(error) ==> error@ == "session manifest build was cancelled"@,
{
    if is_cancelled(current, job) {
        Err("session manifest build was cancelled".to_owned())
    } else {
        Ok(())
    }
}

/// What is reported of a scan: nothing, once another is wanted.
pub fn scan_answer(
    request_id: u64,
    scope_epoch: u64,
    scope: String,
    outcome: JobOutcome<(PublishedManifest, ManifestReader)>,
    current: u64,
    job: u64,
) -> (msg: Option<SessionMsg>)
    ensures
        msg is Some == (current == job),
        msg matches Some(msg) ==> {
            &&& msg matches SessionMsg::ManifestPublished {
                request_id: id,
                scope_epoch: epoch,
                scope: scanned,
                result,
            }
            &&& id == request_id && epoch == scope_epoch && scanned == scope
            &&& match outcome {
                JobOutcome::Finished(finished) => result == finished,
                JobOutcome::Panicked => result matches Err(error) && error@
                    == "session manifest scan panicked"@,
            }
        },
{
    if is_cancelled(current, job) {
        return None;
    }
    Some(
        SessionMsg::ManifestPublished {
            request_id,
            scope_epoch,
            scope,
            result: outcome.result("session manifest scan panicked"),
        },
    )
}

// Locations.

/// How many pages on either side of the expected one are looked through.
pub const SESSION_LOCATE_PAGE_RADIUS: usize = 1;

/// The row that is selected where the wanted session is not found.
pub open spec fn fallback_row(fallback_absolute: usize, total_rows: usize) -> int {
    if total_rows == 0 {
        0
    } else if fallback_absolute < total_rows {
        fallback_absolute as int
    } else {
        total_rows - 1
    }
}

/// The pages that are read, in order: the expected one, and where a session is
/// looked for, those on either side.
pub open spec fn candidate_pages(page: usize, page_count: usize, anchored: bool) -> Seq<usize> {
    let here = seq![page];
    if !anchored {
        here
    } else {
        let with_previous = if page >= 1 {
            here.push((page - 1) as usize)
        } else {
            here
        };
        if page + 1 < page_count {
            with_previous.push((page + 1) as usize)
        } else {
            with_previous
        }
    }
}

/// The pages that are read for a row of a manifest, in order.
pub open spec fn pages_to_read(
    fallback_absolute: usize,
    label: ReaderLabel,
    anchored: bool,
) -> Seq<usize> {
    candidate_pages(
        (fallback_row(fallback_absolute, label.total_rows) / (PAGE_SIZE as int)) as usize,
        label.page_count,
        anchored,
    )
}

/// The label of a source in messages.
pub open spec fn source_label(source: SessionPageSource) -> Seq<char> {
    match source {
        SessionPageSource::Base => "base"@,
        SessionPageSource::Query => "query"@,
    }
}

/// Where a search for a session's place stands.
#[derive(Debug)]
pub struct LocateSearch {
    /// The session that is looked for.
    pub anchor: Option<SessionIdentity>,
    /// The row that is selected where it is not found.
    pub fallback: usize,
    /// The pages to read.
    pub candidates: Vec<usize>,
    /// How many of them were read.
    pub read: usize,
    /// The page of the fallback row, once it was read.
    pub fallback_page: Option<ManifestPage>,
}

/// What is to be done next.
#[derive(Debug)]
pub enum LocateStep {
    /// Read the page, unless the search was cancelled.
    Read(LocateSearch, usize),
    Found(ManifestPage, usize),
    Failed(String),
}

/// Where the wanted session stands on a page.
fn anchor_row(anchor: &Option<SessionIdentity>, rows: &Vec<SessionMeta>) -> (found: Option<usize>)
    ensures
        match (found, anchor) {
            (Some(at), Some(anchor)) => {
                &&& at < rows@.len()
                &&& anchor@.is(rows@[at as int]@)
                &&& forall|i: int| 0 <= i < at ==> !anchor@.is((#[trigger] rows@[i])@)
            },
            (Some(_), None) => false,
            (None, Some(anchor)) => forall|i: int|
                0 <= i < rows@.len() ==> !anchor@.is((#[trigger] rows@[i])@),
            (None, None) => true,
        },
{
    match anchor {
        Some(wanted) => {
            let mut i: usize = 0;
            while i < rows.len()
                invariant
                    i <= rows@.len(),
                    *anchor == Some(*wanted),
                    forall|j: int| 0 <= j < i ==> !wanted@.is((#[trigger] rows@[j])@),
                decreases rows@.len() - i,
            {
                if wanted.matches(&rows[i]) {
                    return Some(i);
                }
                i = i + 1;
            }
            None
        },
        None => None,
    }
}

impl LocateSearch {
    /// Something is left to read, and the page of the fallback row is at hand
    /// once it was read.
    pub open spec fn wf(self) -> bool {
        &&& 0 < self.candidates@.len() <= 1 + 2 * SESSION_LOCATE_PAGE_RADIUS
        &&& self.read < self.candidates@.len()
        &&& self.candidates@[0] == self.fallback / PAGE_SIZE
        &&& self.fallback_page is Some == (self.read > 0)
        &&& self.candidates@.len() > 1 ==> self.candidates@[1] != self.candidates@[0]
        &&& self.candidates@.len() > 2 ==> self.candidates@[2] != self.candidates@[0]
    }

    /// A search at its begin: the page of the fallback row is read first, and
    /// those beside it where a session is looked for.
    pub open spec fn begins(
        self,
        fallback_absolute: usize,
        anchor: Option<SessionIdentity>,
        label: ReaderLabel,
    ) -> bool {
        &&& self.wf()
        &&& self.read == 0
        &&& self.anchor == anchor
        &&& self.fallback == fallback_row(fallback_absolute, label.total_rows)
        &&& self.candidates@ == pages_to_read(fallback_absolute, label, anchor is Some)
    }

    /// Looks for a session's place in a manifest.
    pub fn start(
        source: SessionPageSource,
        scope: &String,
        generation: &String,
        fallback_absolute: usize,
        anchor: Option<SessionIdentity>,
        label: &ReaderLabel,
    ) -> (step: LocateStep)
        ensures
            if label.describes(scope@, generation@) {
                &&& step matches LocateStep::Read(search, page)
                &&& search.begins(fallback_absolute, anchor, *label)
                &&& page == search.candidates@[0]
            } else {
                &&& step matches LocateStep::Failed(error)
                &&& error@ == "session "@ + source_label(source)
                    + " reader does not match its token"@
            },
    {
        if !label.is_of(scope, generation) {
            let source_name = match source {
                SessionPageSource::Base => "base",
                SessionPageSource::Query => "query",
            };
            return LocateStep::Failed(
                joined(
                    joined("session ", source_name).as_str(),
                    " reader does not match its token",
                ),
            );
        }
        let last_row = label.total_rows.saturating_sub(1);
        let fallback = if fallback_absolute < last_row {
            fallback_absolute
        } else {
            last_row
        };
        let page = fallback / PAGE_SIZE;
        let mut candidates: Vec<usize> = vec![page];
        if anchor.is_some() {
            if page >= 1 {
                candidates.push(page - 1);
            }
            let next = page.saturating_add(1);
            if next < label.page_count {
                candidates.push(next);
            }
        }
        let ghost wanted = candidate_pages(page, label.page_count, anchor is Some);
        assert(candidates@ =~= wanted);
        LocateStep::Read(
            LocateSearch { anchor, fallback, candidates, read: 0, fallback_page: None },
            page,
        )
    }

    /// Whether the wanted session stands on a page, and where first.
    pub open spec fn stands(self, page: ManifestPage, at: int) -> bool {
        &&& self.anchor matches Some(anchor)
        &&& 0 <= at < page.rows@.len()
        &&& anchor@.is(page.rows@[at]@)
        &&& forall|i: int| 0 <= i < at ==> !anchor@.is((#[trigger] page.rows@[i])@)
    }

    pub open spec fn absent(self, page: ManifestPage) -> bool {
        self.anchor matches Some(anchor) ==> forall|i: int|
            0 <= i < page.rows@.len() ==> !anchor@.is((#[trigger] page.rows@[i])@)
    }

    /// The row on the fallback page that is selected.
    pub open spec fn fallback_on(self, page: ManifestPage) -> int {
        let row = self.fallback % PAGE_SIZE;
        if page.rows@.len() == 0 {
            0
        } else if row < page.rows@.len() {
            row as int
        } else {
            page.rows@.len() - 1
        }
    }

    /// The page that was asked for was read, or could not be.
    pub fn page_read(self, page: Option<ManifestPage>) -> (step: LocateStep)
        requires
            self.wf(),
        ensures
            match page {
                None => step matches LocateStep::Failed(error) && error@
                    == "session manifest page "@ + decimal_text(
                    self.candidates@[self.read as int] as nat,
                ) + " is unavailable"@,
                Some(page) => match step {
                    LocateStep::Found(shown, at) => ({
                        ||| shown == page && self.stands(page, at as int)
                        ||| {
                            &&& self.absent(page)
                            &&& self.read + 1 == self.candidates@.len()
                            &&& shown == (match self.fallback_page {
                                Some(before) => before,
                                None => page,
                            })
                            &&& at == self.fallback_on(shown)
                        }
                    }),
                    LocateStep::Read(search, next) => {
                        &&& self.absent(page)
                        &&& self.read + 1 < self.candidates@.len()
                        &&& search.wf()
                        &&& search.anchor == self.anchor
                        &&& search.fallback == self.fallback
                        &&& search.candidates == self.candidates
                        &&& search.read == self.read + 1
                        &&& search.fallback_page == Some(
                            match self.fallback_page {
                                Some(before) => before,
                                None => page,
                            },
                        )
                        &&& next == self.candidates@[self.read + 1]
                    },
                    LocateStep::Failed(_) => false,
                },
            },
    {
        let page = match page {
            Some(page) => page,
            None => {
                return LocateStep::Failed(
                    joined(
                        joined(
                            "session manifest page ",
                            decimal(self.candidates[self.read] as u64).as_str(),
                        ).as_str(),
                        " is unavailable",
                    ),
                );
            },
        };
        if let Some(at) = anchor_row(&self.anchor, &page.rows) {
            return LocateStep::Found(page, at);
        }
        let fallback_page = match self.fallback_page {
            Some(before) => before,
            None => page,
        };
        let read = self.read + 1;
        if read < self.candidates.len() {
            let next = self.candidates[read];
            LocateStep::Read(
                LocateSearch {
                    anchor: self.anchor,
                    fallback: self.fallback,
                    candidates: self.candidates,
                    read,
                    fallback_page: Some(fallback_page),
                },
                next,
            )
        } else {
            let row = self.fallback % PAGE_SIZE;
            let last = fallback_page.rows.len().saturating_sub(1);
            let selected = if row < last {
                row
            } else {
                last
            };
            LocateStep::Found(fallback_page, selected)
        }
    }
}

/// The session that is looked for stands on none of the first `count` pages.
pub open spec fn read_in_vain<R: Fn(usize) -> Option<ManifestPage>>(
    search: LocateSearch,
    load_page: R,
    count: int,
) -> bool {
    forall|i: int|
        0 <= i < count ==> exists|page: ManifestPage| #[trigger]
            load_page.ensures((#[trigger] search.candidates@[i],), Some(page)) && search.absent(
                page,
            )
}

/// Where a search ends: at the session, on the first page that it stands on, or
/// at the fallback row where it stands on no page.
pub open spec fn places<R: Fn(usize) -> Option<ManifestPage>>(
    search: LocateSearch,
    load_page: R,
    page: ManifestPage,
    row: int,
) -> bool {
    ||| exists|i: int|
        0 <= i < search.candidates@.len() && load_page.ensures(
            (#[trigger] search.candidates@[i],),
            Some(page),
        ) && search.stands(page, row) && read_in_vain(search, load_page, i)
    ||| {
        &&& load_page.ensures((search.candidates@[0],), Some(page))
        &&& row == search.fallback_on(page)
        &&& read_in_vain(search, load_page, search.candidates@.len() as int)
    }
}

/// What a search came to that was not cancelled.
pub open spec fn resolves<R: Fn(usize) -> Option<ManifestPage>>(
    search: LocateSearch,
    load_page: R,
    result: Result<Option<(ManifestPage, usize)>, String>,
) -> bool {
    match result {
        Ok(None) => false,
        Ok(Some((page, row))) => places(search, load_page, page, row as int),
        Err(error) => exists|i: int|
            0 <= i < search.candidates@.len() && load_page.ensures(
                (#[trigger] search.candidates@[i],),
                None,
            ) && error@ == "session manifest page "@ + decimal_text(
                search.candidates@[i] as nat,
            ) + " is unavailable"@ && read_in_vain(search, load_page, i),
    }
}

/// Looks for a session's place in a manifest, page by page. Nothing comes of a
/// search that is cancelled meanwhile.
pub fn resolve_session_manifest_selection<
    R: Fn(usize) -> Option<ManifestPage>,
    C: Fn() -> bool,
>(
    source: SessionPageSource,
    scope: &String,
    generation: &String,
    fallback_absolute: usize,
    anchor: Option<SessionIdentity>,
    label: &ReaderLabel,
    load_page: R,
    cancelled: C,
) -> (result: Result<Option<(ManifestPage, usize)>, String>)
    requires
        label.describes(scope@, generation@) ==> forall|i: int|
            0 <= i < pages_to_read(fallback_absolute, *label, anchor is Some).len()
                ==> load_page.requires(
                (#[trigger] pages_to_read(fallback_absolute, *label, anchor is Some)[i],),
            ),
        cancelled.requires(()),
    ensures
        result == Ok::<Option<(ManifestPage, usize)>, String>(None) ==> cancelled.ensures((), true),
        !cancelled.ensures((), false) ==> result == Ok::<Option<(ManifestPage, usize)>, String>(
            None,
        ),
        result != Ok::<Option<(ManifestPage, usize)>, String>(None) ==> if label.describes(
            scope@,
            generation@,
        ) {
            exists|search: LocateSearch| #[trigger]
                search.begins(fallback_absolute, anchor, *label) && resolves(
                    search,
                    load_page,
                    result,
                )
        } else {
            result matches Err(error) && error@ == "session "@ + source_label(source)
                + " reader does not match its token"@
        },
{
    if cancelled() {
        return Ok(None);
    }
    let (mut search, mut next) = match LocateSearch::start(
        source,
        scope,
        generation,
        fallback_absolute,
        anchor,
        label,
    ) {
        LocateStep::Read(search, page) => (search, page),
        LocateStep::Found(page, row) => {
            return Ok(Some((page, row)));
        },
        LocateStep::Failed(error) => {
            return Err(error);
        },
    };
    let ghost begun = search;
    assert(begun.begins(fallback_absolute, anchor, *label));
    loop
        invariant
            forall|i: int|
                0 <= i < begun.candidates@.len() ==> load_page.requires(
                    (#[trigger] begun.candidates@[i],),
                ),
            cancelled.requires(()),
            cancelled.ensures((), false),
            label.describes(scope@, generation@),
            begun.begins(fallback_absolute, anchor, *label),
            search.wf(),
            search.anchor == begun.anchor,
            search.fallback == begun.fallback,
            search.candidates == begun.candidates,
            next == search.candidates@[search.read as int],
            read_in_vain(begun, load_page, search.read as int),
            search.fallback_page matches Some(page) ==> load_page.ensures(
                (begun.candidates@[0],),
                Some(page),
            ),
        decreases search.candidates@.len() - search.read,
    {
        if cancelled() {
            return Ok(None);
        }
        let loaded = load_page(next);
        let ghost seen = loaded;
        if cancelled() {
            return Ok(None);
        }
        let ghost before = search;
        assert(begun.candidates@[before.read as int] == next);
        match search.page_read(loaded) {
            LocateStep::Read(rest, page) => {
                search = rest;
                next = page;
            },
            LocateStep::Found(page, row) => {
                return Ok(Some((page, row)));
            },
            LocateStep::Failed(error) => {
                return Err(error);
            },
        }
    }
}

/// What is reported of a location: nothing, once another is wanted.
pub fn locate_answer(
    request_id: u64,
    scope_epoch: u64,
    generation: String,
    result: Result<(ManifestReader, ManifestPage, usize), String>,
    current: u64,
    job: u64,
) -> (msg: Option<SessionMsg>)
    ensures
        msg == (if current == job {
            Some(SessionMsg::ManifestLocated { request_id, scope_epoch, generation, result })
        } else {
            None
        }),
{
    if is_cancelled(current, job) {
        None
    } else {
        Some(SessionMsg::ManifestLocated { request_id, scope_epoch, generation, result })
    }
}

/// However large a manifest is, a session is looked for on three pages at most,
/// all of them at or beside the expected one.
pub proof fn locations_read_few_pages(page: usize, page_count: usize, anchored: bool)
    ensures
        candidate_pages(page, page_count, anchored).len() <= 1 + 2 * SESSION_LOCATE_PAGE_RADIUS,
        forall|i: int|
            0 <= i < candidate_pages(page, page_count, anchored).len() ==> {
                let read = #[trigger] candidate_pages(page, page_count, anchored)[i];
                page - SESSION_LOCATE_PAGE_RADIUS <= read <= page + SESSION_LOCATE_PAGE_RADIUS
            },
{
}

} // verus!
