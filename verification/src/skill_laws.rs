//! What looking for skills and installing them is for.

use vstd::prelude::*;

use crate::app::{AppView, OverlayView};
use crate::base::{opt_view, views};
use crate::cache::CacheInvalidation;
use crate::chars::{occurs_at, occurs_in, text_lowercase};
use crate::data::UiData;
use crate::report_laws::notices;
use crate::skills::{
    answering, listed, narrowed, skill_answers, skill_installed, skills_received, without_query,
    DiscoveredView, InstalledSkill, MarketSkill, Skill, SkillView, SkillsDiscoverSource, SkillsMsg,
    SkillsStep,
};
use crate::text::{decimal_text, digit, TextKey, ToastKind};
use crate::text_edit::{ascii_lower, same_ignoring_ascii_case, trimmed};

verus! {

/// A text has another one in it: some part of it is that text.
pub open spec fn has_in_it(text: Seq<char>, part: Seq<char>) -> bool {
    exists|at: int|
        0 <= at && at + part.len() <= text.len() && #[trigger] text.subrange(at, at + part.len())
            == part
}

/// A skill is meant by a query: its name, its directory, its description or its
/// key has the query in it, the case of letters aside.
pub open spec fn meant_by(skill: SkillView, query: Seq<char>) -> bool {
    ||| has_in_it(text_lowercase(skill.name), query)
    ||| has_in_it(text_lowercase(skill.directory), query)
    ||| has_in_it(text_lowercase(skill.description), query)
    ||| has_in_it(text_lowercase(skill.key), query)
}

pub(crate) proof fn lemma_has_in_it(text: Seq<char>, part: Seq<char>)
    ensures
        occurs_in(text, part) == has_in_it(text, part),
{
    if occurs_in(text, part) {
        let at = choose|at: int| occurs_at(text, part, at);
        assert(text.subrange(at, at + part.len()) == part);
    }
    if has_in_it(text, part) {
        let at = choose|at: int|
            0 <= at && at + part.len() <= text.len() && #[trigger] text.subrange(
                at,
                at + part.len(),
            ) == part;
        assert(occurs_at(text, part, at));
    }
}

proof fn lemma_answering(skills: Seq<SkillView>, query: Seq<char>)
    ensures
        answering(skills, query) == skills.filter(|skill: SkillView| meant_by(skill, query)),
        forall|i: int|
            0 <= i < skills.len() && meant_by(#[trigger] skills[i], query) ==> answering(
                skills,
                query,
            ).contains(skills[i]),
        forall|k: int|
            0 <= k < answering(skills, query).len() ==> meant_by(
                #[trigger] answering(skills, query)[k],
                query,
            ) && skills.contains(answering(skills, query)[k]),
    decreases skills.len(),
{
    reveal(Seq::filter);
    if skills.len() > 0 {
        let front = skills.drop_last();
        let last = skills.last();
        let rest = answering(front, query);
        let all = answering(skills, query);
        lemma_answering(front, query);
        lemma_has_in_it(text_lowercase(last.name), query);
        lemma_has_in_it(text_lowercase(last.directory), query);
        lemma_has_in_it(text_lowercase(last.description), query);
        lemma_has_in_it(text_lowercase(last.key), query);
        assert(skill_answers(last, query) == meant_by(last, query));
        assert(skills[skills.len() - 1] == last);
        assert forall|i: int|
            0 <= i < skills.len() && meant_by(#[trigger] skills[i], query) implies all.contains(
            skills[i],
        ) by {
            if i < front.len() {
                assert(front[i] == skills[i]);
                let k = choose|k: int| 0 <= k < rest.len() && rest[k] == skills[i];
                assert(all[k] == skills[i]);
            } else {
                assert(all[all.len() - 1] == last);
            }
        }
        assert forall|k: int| 0 <= k < all.len() implies meant_by(#[trigger] all[k], query)
            && skills.contains(all[k]) by {
            if k < rest.len() {
                assert(all[k] == rest[k]);
                let i = choose|i: int| 0 <= i < front.len() && front[i] == rest[k];
                assert(skills[i] == all[k]);
            }
        }
    }
}

/// A search keeps every skill that the query means, in order, and no other. The
/// query is what was typed, without white space at its ends and in lower case; a
/// blank one means every skill.
pub proof fn searches_find_what_is_meant(skills: Seq<SkillView>, typed: Seq<char>)
    ensures
        ({
            let query = text_lowercase(trimmed(typed));
            let kept = narrowed(skills, typed);
            &&& query.len() == 0 ==> kept == skills
            &&& query.len() > 0 ==> {
                &&& kept == skills.filter(|skill: SkillView| meant_by(skill, query))
                &&& forall|i: int|
                    0 <= i < skills.len() && (has_in_it(
                        text_lowercase((#[trigger] skills[i]).name),
                        query,
                    ) || has_in_it(text_lowercase(skills[i].directory), query) || has_in_it(
                        text_lowercase(skills[i].description),
                        query,
                    ) || has_in_it(text_lowercase(skills[i].key), query)) ==> kept.contains(
                        skills[i],
                    )
                &&& forall|k: int|
                    0 <= k < kept.len() ==> skills.contains(#[trigger] kept[k]) && meant_by(
                        kept[k],
                        query,
                    )
            }
        }),
{
    let query = text_lowercase(trimmed(typed));
    if query.len() > 0 {
        lemma_answering(skills, query);
        assert forall|i: int|
            0 <= i < skills.len() && (has_in_it(
                text_lowercase((#[trigger] skills[i]).name),
                query,
            ) || has_in_it(text_lowercase(skills[i].directory), query) || has_in_it(
                text_lowercase(skills[i].description),
                query,
            ) || has_in_it(text_lowercase(skills[i].key), query)) implies narrowed(
            skills,
            typed,
        ).contains(skills[i]) by {
            assert(meant_by(skills[i], query));
        }
    }
}

proof fn lemma_without_query(
    cache: Seq<DiscoveredView>,
    source: SkillsDiscoverSource,
    query: Seq<char>,
)
    ensures
        without_query(cache, source, query) == cache.filter(
            |entry: DiscoveredView| !(entry.source == source && entry.query == query),
        ),
    decreases cache.len(),
{
    reveal(Seq::filter);
    if cache.len() > 0 {
        lemma_without_query(cache.drop_last(), source, query);
    }
}

/// The skills that were found are shown from the first on, and kept under their
/// source and query in place of what was found before. How many they are is
/// told. A search that failed leaves what is shown as it is and is told of.
pub proof fn found_skills_are_shown(
    before: AppView,
    request_id: u64,
    query: String,
    source: SkillsDiscoverSource,
    result: Result<Vec<Skill>, String>,
    after: AppView,
    step: SkillsStep,
)
    requires
        skills_received(
            before,
            (SkillsMsg::DiscoverFinished { request_id, query, source, result }),
            after,
            step,
        ),
        before.skills.active_request_id == Some(request_id),
    ensures
        step is Done,
        !after.skills.loading,
        after.skills.active_request_id is None,
        after.overlay == OverlayView::Absent,
        after == (AppView {
            skills: after.skills,
            overlay: after.overlay,
            toast: after.toast,
            ..before
        }),
        result matches Ok(found) ==> {
            let key = text_lowercase(trimmed(query@));
            &&& after.skills.results == views(found@)
            &&& after.skills.selected == 0
            &&& after.skills.query == query@
            &&& after.skills.source == source
            &&& after.skills.cache == before.skills.cache.filter(
                |entry: DiscoveredView| !(entry.source == source && entry.query == key),
            ).push(DiscoveredView { source, query: key, skills: views(found@) })
            &&& notices(
                after,
                ToastKind::Success,
                TextKey::SkillsDiscoverFinished(found@.len() as usize),
                Seq::empty(),
            )
        },
        result matches Err(error) ==> {
            &&& after.skills.results == before.skills.results
            &&& after.skills.selected == before.skills.selected
            &&& after.skills.query == before.skills.query
            &&& after.skills.source == before.skills.source
            &&& after.skills.cache == before.skills.cache
            &&& notices(after, ToastKind::Error, TextKey::SkillsDiscoverFailed, seq![error@])
        },
{
    lemma_without_query(before.skills.cache, source, text_lowercase(trimmed(query@)));
}

/// The end of an installation takes the notice of it off the screen. Success
/// calls for everything to be loaded anew; failure is told with what was to be
/// installed.
pub proof fn installations_end(
    before: AppView,
    spec: String,
    result: Result<InstalledSkill, String>,
    after: AppView,
    step: SkillsStep,
)
    requires
        skills_received(
            before,
            (SkillsMsg::InstallFinished { spec, result }),
            after,
            step,
        ),
    ensures
        after.overlay == OverlayView::Absent,
        after.skills == before.skills,
        result matches Ok(installed) ==> step == SkillsStep::Reload(installed) && after.toast
            == before.toast,
        result matches Err(error) ==> step is Done && notices(
            after,
            ToastKind::Error,
            TextKey::SkillInstallFailed,
            seq![spec@, error@],
        ),
{
}

/// The same text but for the case of ASCII letters.
pub open spec fn same_but_case(a: Seq<char>, b: Seq<char>) -> bool {
    &&& a.len() == b.len()
    &&& forall|i: int|
        0 <= i < a.len() ==> {
            let x = (#[trigger] a[i]) as u32;
            let y = b[i] as u32;
            ||| x == y
            ||| 65 <= x && x <= 90 && y == x + 32
            ||| 65 <= y && y <= 90 && x == y + 32
        }
}

proof fn lemma_same_but_case(a: Seq<char>, b: Seq<char>)
    ensures
        same_ignoring_ascii_case(a, b) == same_but_case(a, b),
{
    assert forall|c: char, d: char|
        (#[trigger] ascii_lower(c) == #[trigger] ascii_lower(
            d,
        )) == (c == d || 65 <= (c as u32) && (c as u32) <= 90 && (d as u32) == (c as u32) + 32
            || 65 <= (d as u32) && (d as u32) <= 90 && (c as u32) == (d as u32) + 32) by {}
    if same_ignoring_ascii_case(a, b) {
        assert forall|i: int| 0 <= i < a.len() implies {
            let x = (#[trigger] a[i]) as u32;
            let y = b[i] as u32;
            ||| x == y
            ||| 65 <= x && x <= 90 && y == x + 32
            ||| 65 <= y && y <= 90 && x == y + 32
        } by {
            assert(ascii_lower(a[i]) == ascii_lower(b[i]));
        }
    }
    if same_but_case(a, b) {
        assert forall|i: int| 0 <= i < a.len() implies ascii_lower(
            #[trigger] a[i],
        ) == ascii_lower(b[i]) by {}
    }
}

/// An installed skill is marked so wherever it is listed: on the screen and in
/// what is kept, by its key or by its directory. No other skill is touched, and
/// no list changes its order. The data loaded anew is what is shown.
pub proof fn installed_skills_are_marked(
    before: (AppView, UiData),
    installed: InstalledSkill,
    loaded: Result<UiData, String>,
    after: (AppView, UiData),
    result: Result<CacheInvalidation, String>,
)
    requires
        skill_installed(before, installed, loaded, after, result),
    ensures
        loaded matches Err(error) ==> after == before && result == Err::<CacheInvalidation, String>(
            error,
        ),
        loaded matches Ok(data) ==> {
            let shown = before.0.skills.results;
            let marks = after.0.skills.results;
            let kept = before.0.skills.cache;
            let kept_marks = after.0.skills.cache;
            &&& after.1 == data
            &&& result == Ok::<CacheInvalidation, String>(CacheInvalidation::DataReloaded)
            &&& notices(
                after.0,
                ToastKind::Success,
                TextKey::SkillInstalled,
                seq![installed.directory@],
            )
            &&& marks.len() == shown.len()
            &&& forall|i: int|
                0 <= i < shown.len() ==> {
                    &&& (#[trigger] marks[i]) == (SkillView {
                        installed: marks[i].installed,
                        ..shown[i]
                    })
                    &&& marks[i].installed == (shown[i].installed || shown[i].key == installed.id@
                        || same_but_case(shown[i].directory, installed.directory@))
                }
            &&& kept_marks.len() == kept.len()
            &&& forall|e: int, i: int|
                0 <= e < kept.len() && 0 <= i < kept[e].skills.len() ==> {
                    &&& (#[trigger] kept_marks[e].skills[i]) == (SkillView {
                        installed: kept_marks[e].skills[i].installed,
                        ..kept[e].skills[i]
                    })
                    &&& kept_marks[e].skills[i].installed == (kept[e].skills[i].installed
                        || kept[e].skills[i].key == installed.id@ || same_but_case(
                        kept[e].skills[i].directory,
                        installed.directory@,
                    ))
                }
            &&& forall|e: int|
                0 <= e < kept.len() ==> (#[trigger] kept_marks[e]).source == kept[e].source
                    && kept_marks[e].query == kept[e].query && kept_marks[e].skills.len()
                    == kept[e].skills.len()
            &&& after.0.skills.selected == before.0.skills.selected
            &&& after.0.skills.query == before.0.skills.query
        },
{
    assert forall|a: Seq<char>, b: Seq<char>|
        #[trigger] same_ignoring_ascii_case(a, b) == same_but_case(a, b) by {
        lemma_same_but_case(a, b);
    }
}

/// The number that a row of digits stands for.
pub open spec fn number_read(digits: Seq<char>) -> nat
    decreases digits.len(),
{
    if digits.len() == 0 {
        0
    } else {
        number_read(digits.drop_last()) * 10 + ((digits.last() as u32) - 48) as nat
    }
}

/// A number is written in digits that read as the number, without leading
/// zeros.
pub proof fn numbers_are_written_in_digits(n: nat)
    ensures
        number_read(decimal_text(n)) == n,
        decimal_text(n).len() > 0,
        forall|i: int|
            0 <= i < decimal_text(n).len() ==> 48 <= ((#[trigger] decimal_text(n)[i]) as u32)
                && (decimal_text(n)[i] as u32) <= 57,
        n > 0 ==> (decimal_text(n)[0] as u32) != 48,
    decreases n,
{
    reveal_with_fuel(number_read, 2);
    if n >= 10 {
        numbers_are_written_in_digits(n / 10);
        let front = decimal_text(n / 10);
        assert(decimal_text(n).drop_last() =~= front);
        assert forall|i: int| 0 <= i < decimal_text(n).len() implies 48 <= ((
        #[trigger] decimal_text(n)[i]) as u32) && (decimal_text(n)[i] as u32) <= 57 by {
            if i < front.len() {
                assert(decimal_text(n)[i] == front[i]);
            }
        }
    } else {
        assert(seq![digit(n)].drop_last() =~= Seq::<char>::empty());
    }
}

/// A skill of the marketplace is listed as what it is, with the number of its
/// installations for a description. It counts as installed exactly if a skill of
/// its directory and repository is, the case of letters aside; a repository that
/// is not known counts as one without a name.
pub proof fn market_skills_are_listed(skill: MarketSkill, index: Seq<InstalledSkill>)
    ensures
        ({
            let row = listed(skill, index);
            &&& row.key == skill.key@
            &&& row.name == skill.name@
            &&& row.directory == skill.directory@
            &&& row.readme_url == opt_view(skill.readme_url)
            &&& row.repo_owner == Some(skill.repo_owner@)
            &&& row.repo_name == Some(skill.repo_name@)
            &&& row.repo_branch == Some(skill.repo_branch@)
            &&& row.description == decimal_text(skill.installs as nat) + " installs"@
            &&& row.installed <==> exists|i: int|
                {
                    &&& 0 <= i < index.len()
                    &&& text_lowercase((#[trigger] index[i]).directory@) == text_lowercase(
                        skill.directory@,
                    )
                    &&& text_lowercase(
                        match index[i].repo_owner {
                            Some(owner) => owner@,
                            None => Seq::empty(),
                        },
                    ) == text_lowercase(skill.repo_owner@)
                    &&& text_lowercase(
                        match index[i].repo_name {
                            Some(name) => name@,
                            None => Seq::empty(),
                        },
                    ) == text_lowercase(skill.repo_name@)
                }
        }),
{
}

} // verus!
