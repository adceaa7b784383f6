//! Language sets of users, sites and communities.
//!
//! Every actor carries the set of languages it accepts. An update with an
//! empty list means "all languages", and narrowing the languages of a site
//! narrows those of every local community with it.

use vstd::prelude::*;
use crate::newtypes::{CommunityId, LanguageId, LocalUserId, SiteId};
use crate::seq_lemmas::{
    lemma_filter_all, lemma_filter_kept, lemma_filter_narrower, lemma_filter_none,
    lemma_filter_push, lemma_map_push, lemma_take_ends, lemma_take_push,
};

verus! {

/// One accepted language of a local user.
#[derive(Clone, Copy, Debug, PartialEq, Eq, Structural)]
pub struct LocalUserLanguage {
    pub local_user_id: LocalUserId,
    pub language_id: LanguageId,
}

/// One accepted language of a site.
#[derive(Clone, Copy, Debug, PartialEq, Eq, Structural)]
pub struct SiteLanguage {
    pub site_id: SiteId,
    pub language_id: LanguageId,
}

/// One accepted language of a community.
#[derive(Clone, Copy, Debug, PartialEq, Eq, Structural)]
pub struct CommunityLanguage {
    pub community_id: CommunityId,
    pub language_id: LanguageId,
}

/// What the language rules read of a community.
#[derive(Clone, Copy, Debug, PartialEq, Eq, Structural)]
pub struct Community {
    pub id: CommunityId,
    pub local: bool,
}

/// Why a language request was turned down.
#[derive(Clone, Copy, Debug, PartialEq, Eq, Structural)]
pub enum LanguageError {
    /// No local site is recorded.
    NotFound,
    /// The language is not among those the community accepts.
    LanguageNotAllowed,
}

/// The rows that the language rules read and write.
///
/// Row order is insertion order; reads return languages in that order.
#[derive(Clone, Debug, PartialEq, Eq)]
pub struct LanguageTables {
    /// Every language known to the site.
    pub languages: Vec<LanguageId>,
    /// The site this server hosts, once it has been set up.
    pub local_site: Option<SiteId>,
    pub communities: Vec<Community>,
    pub local_user_language: Vec<LocalUserLanguage>,
    pub site_language: Vec<SiteLanguage>,
    pub community_language: Vec<CommunityLanguage>,
}

/// The languages an update stores: the requested ones, or every known
/// language when none was requested.
pub open spec fn effective_languages(requested: Seq<LanguageId>, all: Seq<LanguageId>) -> Seq<
    LanguageId,
> {
    if requested.len() == 0 {
        all
    } else {
        requested
    }
}

/// Whether `id` names a community hosted on this server.
pub open spec fn is_local_community(communities: Seq<Community>, id: CommunityId) -> bool {
    exists|i: int| 0 <= i < communities.len() && communities[i].id == id && communities[i].local
}

/// Resolves the languages to store for an update request.
pub fn update_languages(tables: &LanguageTables, language_ids: Vec<LanguageId>) -> (res: Vec<
    LanguageId,
>)
    ensures
        res@ == effective_languages(language_ids@, tables.languages@),
{
    if language_ids.is_empty() {
        tables.languages.clone()
    } else {
        language_ids
    }
}

fn contains_language(languages: &Vec<LanguageId>, id: LanguageId) -> (found: bool)
    ensures
        found == languages@.contains(id),
{
    let mut i: usize = 0;
    while i < languages.len()
        invariant
            i <= languages.len(),
            forall|j: int| 0 <= j < i ==> languages@[j] != id,
        decreases languages.len() - i,
    {
        if languages[i] == id {
            return true;
        }
        i += 1;
    }
    false
}

fn hosts_community(communities: &Vec<Community>, id: CommunityId) -> (found: bool)
    ensures
        found == is_local_community(communities@, id),
{
    let mut i: usize = 0;
    while i < communities.len()
        invariant
            i <= communities.len(),
            forall|j: int| 0 <= j < i ==> !(communities@[j].id == id && communities@[j].local),
        decreases communities.len() - i,
    {
        if communities[i].id == id && communities[i].local {
            return true;
        }
        i += 1;
    }
    false
}

impl LocalUserLanguage {
    /// Test: the row belongs to user `id`.
    pub open spec fn of(id: LocalUserId) -> spec_fn(LocalUserLanguage) -> bool {
        |r: LocalUserLanguage| r.local_user_id == id
    }

    /// Test: the row belongs to another user than `id`.
    pub open spec fn not_of(id: LocalUserId) -> spec_fn(LocalUserLanguage) -> bool {
        |r: LocalUserLanguage| r.local_user_id != id
    }

    /// Projection of a row to its language.
    pub open spec fn language() -> spec_fn(LocalUserLanguage) -> LanguageId {
        |r: LocalUserLanguage| r.language_id
    }

    /// The row that records language `l` for user `id`.
    pub open spec fn form(id: LocalUserId) -> spec_fn(LanguageId) -> LocalUserLanguage {
        |l: LanguageId| LocalUserLanguage { local_user_id: id, language_id: l }
    }

    /// The languages recorded for user `id`, in row order.
    pub open spec fn languages_of(rows: Seq<LocalUserLanguage>, id: LocalUserId) -> Seq<
        LanguageId,
    > {
        rows.filter(Self::of(id)).map_values(Self::language())
    }

    /// The table after user `id` was given `languages`: the rows of every
    /// other user in their old order, then one row per language.
    pub open spec fn replaced(
        rows: Seq<LocalUserLanguage>,
        id: LocalUserId,
        languages: Seq<LanguageId>,
    ) -> Seq<LocalUserLanguage> {
        rows.filter(Self::not_of(id)) + languages.map_values(Self::form(id))
    }

    /// After user `id` was given `languages`, those are its languages, and
    /// the languages of every other user are what they were.
    pub proof fn lemma_replaced_reads(
        rows: Seq<LocalUserLanguage>,
        id: LocalUserId,
        languages: Seq<LanguageId>,
        other: LocalUserId,
    )
        ensures
            Self::languages_of(Self::replaced(rows, id, languages), id) == languages,
            other != id ==> Self::languages_of(Self::replaced(rows, id, languages), other)
                == Self::languages_of(rows, other),
    {
        let kept = rows.filter(Self::not_of(id));
        let added = languages.map_values(Self::form(id));
        lemma_filter_kept(rows, Self::not_of(id));
        Seq::filter_distributes_over_add(kept, added, Self::of(id));
        lemma_filter_none(kept, Self::of(id));
        lemma_filter_all(added, Self::of(id));
        assert(added.map_values(Self::language()) =~= languages);
        assert(Seq::<LocalUserLanguage>::empty() + added =~= added);
        if other != id {
            Seq::filter_distributes_over_add(kept, added, Self::of(other));
            lemma_filter_none(added, Self::of(other));
            lemma_filter_narrower(rows, Self::not_of(id), Self::of(other));
            assert(kept.filter(Self::of(other)) + Seq::<LocalUserLanguage>::empty() =~= kept.filter(
                Self::of(other),
            ));
        }
    }

    fn rows_for(
        id: LocalUserId,
        languages: &Vec<LanguageId>,
        kept: Vec<LocalUserLanguage>,
    ) -> (res: Vec<LocalUserLanguage>)
        ensures
            res@ == kept@ + languages@.map_values(Self::form(id)),
    {
        let mut res = kept;
        let mut i: usize = 0;
        proof {
            lemma_take_ends(languages@);
            assert(kept@ + Seq::<LocalUserLanguage>::empty() =~= kept@);
            assert(Seq::<LanguageId>::empty().map_values(Self::form(id)) =~= Seq::<
                LocalUserLanguage,
            >::empty());
        }
        while i < languages.len()
            invariant
                i <= languages.len(),
                res@ == kept@ + languages@.take(i as int).map_values(Self::form(id)),
            decreases languages.len() - i,
        {
            let l = languages[i];
            proof {
                lemma_take_push(languages@, i as int);
                lemma_map_push(languages@.take(i as int), l, Self::form(id));
                assert((kept@ + languages@.take(i as int).map_values(Self::form(id))).push(
                    LocalUserLanguage { local_user_id: id, language_id: l },
                ) =~= kept@ + languages@.take(i as int).map_values(Self::form(id)).push(
                    LocalUserLanguage { local_user_id: id, language_id: l },
                ));
            }
            res.push(LocalUserLanguage { local_user_id: id, language_id: l });
            i += 1;
        }
        res
    }

    fn rows_of_others(rows: &Vec<LocalUserLanguage>, id: LocalUserId) -> (res: Vec<
        LocalUserLanguage,
    >)
        ensures
            res@ == rows@.filter(Self::not_of(id)),
    {
        let mut res: Vec<LocalUserLanguage> = Vec::new();
        let mut i: usize = 0;
        proof {
            lemma_take_ends(rows@);
            reveal(Seq::filter);
        }
        while i < rows.len()
            invariant
                i <= rows.len(),
                res@ == rows@.take(i as int).filter(Self::not_of(id)),
            decreases rows.len() - i,
        {
            let row = rows[i];
            proof {
                lemma_take_push(rows@, i as int);
                lemma_filter_push(rows@.take(i as int), row, Self::not_of(id));
            }
            if row.local_user_id != id {
                res.push(row);
            }
            i += 1;
        }
        res
    }

    fn languages_in(rows: &Vec<LocalUserLanguage>, id: LocalUserId) -> (res: Vec<LanguageId>)
        ensures
            res@ == Self::languages_of(rows@, id),
    {
        let mut res: Vec<LanguageId> = Vec::new();
        let mut i: usize = 0;
        proof {
            lemma_take_ends(rows@);
            reveal(Seq::filter);
        }
        while i < rows.len()
            invariant
                i <= rows.len(),
                res@ == Self::languages_of(rows@.take(i as int), id),
            decreases rows.len() - i,
        {
            let row = rows[i];
            proof {
                lemma_take_push(rows@, i as int);
                lemma_filter_push(rows@.take(i as int), row, Self::of(id));
                lemma_map_push(rows@.take(i as int).filter(Self::of(id)), row, Self::language());
            }
            if row.local_user_id == id {
                res.push(row.language_id);
            }
            i += 1;
        }
        res
    }

    /// The languages of one user, in row order.
    pub fn read(tables: &LanguageTables, for_local_user_id: LocalUserId) -> (res: Vec<LanguageId>)
        ensures
            res@ == Self::languages_of(tables.local_user_language@, for_local_user_id),
    {
        Self::languages_in(&tables.local_user_language, for_local_user_id)
    }

    /// Replaces the languages of one user.
    ///
    /// An empty `language_ids` stands for every known language. Afterwards
    /// `read` returns exactly the stored languages for this user, and what it
    /// returns for any other user has not changed.
    pub fn update(
        tables: &mut LanguageTables,
        language_ids: Vec<LanguageId>,
        for_local_user_id: LocalUserId,
    )
        ensures
            final(tables).local_user_language@ == Self::replaced(
                old(tables).local_user_language@,
                for_local_user_id,
                effective_languages(language_ids@, old(tables).languages@),
            ),
            Self::languages_of(final(tables).local_user_language@, for_local_user_id)
                == effective_languages(language_ids@, old(tables).languages@),
            final(tables).languages == old(tables).languages,
            final(tables).local_site == old(tables).local_site,
            final(tables).communities == old(tables).communities,
            final(tables).site_language == old(tables).site_language,
            final(tables).community_language == old(tables).community_language,
    {
        let kept = Self::rows_of_others(&tables.local_user_language, for_local_user_id);
        let lang_ids = update_languages(tables, language_ids);
        proof {
            Self::lemma_replaced_reads(
                tables.local_user_language@,
                for_local_user_id,
                lang_ids@,
                for_local_user_id,
            );
        }
        tables.local_user_language = Self::rows_for(for_local_user_id, &lang_ids, kept);
    }
}

impl SiteLanguage {
    /// Test: the row belongs to site `id`.
    pub open spec fn of(id: SiteId) -> spec_fn(SiteLanguage) -> bool {
        |r: SiteLanguage| r.site_id == id
    }

    /// Test: the row belongs to another site than `id`.
    pub open spec fn not_of(id: SiteId) -> spec_fn(SiteLanguage) -> bool {
        |r: SiteLanguage| r.site_id != id
    }

    /// Projection of a row to its language.
    pub open spec fn language() -> spec_fn(SiteLanguage) -> LanguageId {
        |r: SiteLanguage| r.language_id
    }

    /// The row that records language `l` for site `id`.
    pub open spec fn form(id: SiteId) -> spec_fn(LanguageId) -> SiteLanguage {
        |l: LanguageId| SiteLanguage { site_id: id, language_id: l }
    }

    /// The languages recorded for site `id`, in row order.
    pub open spec fn languages_of(rows: Seq<SiteLanguage>, id: SiteId) -> Seq<LanguageId> {
        rows.filter(Self::of(id)).map_values(Self::language())
    }

    /// The table after site `id` was given `languages`: the rows of every
    /// other site in their old order, then one row per language.
    pub open spec fn replaced(
        rows: Seq<SiteLanguage>,
        id: SiteId,
        languages: Seq<LanguageId>,
    ) -> Seq<SiteLanguage> {
        rows.filter(Self::not_of(id)) + languages.map_values(Self::form(id))
    }

    /// After site `id` was given `languages`, those are its languages, and
    /// the languages of every other site are what they were.
    pub proof fn lemma_replaced_reads(
        rows: Seq<SiteLanguage>,
        id: SiteId,
        languages: Seq<LanguageId>,
        other: SiteId,
    )
        ensures
            Self::languages_of(Self::replaced(rows, id, languages), id) == languages,
            other != id ==> Self::languages_of(Self::replaced(rows, id, languages), other)
                == Self::languages_of(rows, other),
    {
        let kept = rows.filter(Self::not_of(id));
        let added = languages.map_values(Self::form(id));
        lemma_filter_kept(rows, Self::not_of(id));
        Seq::filter_distributes_over_add(kept, added, Self::of(id));
        lemma_filter_none(kept, Self::of(id));
        lemma_filter_all(added, Self::of(id));
        assert(added.map_values(Self::language()) =~= languages);
        assert(Seq::<SiteLanguage>::empty() + added =~= added);
        if other != id {
            Seq::filter_distributes_over_add(kept, added, Self::of(other));
            lemma_filter_none(added, Self::of(other));
            lemma_filter_narrower(rows, Self::not_of(id), Self::of(other));
            assert(kept.filter(Self::of(other)) + Seq::<SiteLanguage>::empty() =~= kept.filter(
                Self::of(other),
            ));
        }
    }

    fn rows_for(
        id: SiteId,
        languages: &Vec<LanguageId>,
        kept: Vec<SiteLanguage>,
    ) -> (res: Vec<SiteLanguage>)
        ensures
            res@ == kept@ + languages@.map_values(Self::form(id)),
    {
        let mut res = kept;
        let mut i: usize = 0;
        proof {
            lemma_take_ends(languages@);
            assert(kept@ + Seq::<SiteLanguage>::empty() =~= kept@);
            assert(Seq::<LanguageId>::empty().map_values(Self::form(id)) =~= Seq::<
                SiteLanguage,
            >::empty());
        }
        while i < languages.len()
            invariant
                i <= languages.len(),
                res@ == kept@ + languages@.take(i as int).map_values(Self::form(id)),
            decreases languages.len() - i,
        {
            let l = languages[i];
            proof {
                lemma_take_push(languages@, i as int);
                lemma_map_push(languages@.take(i as int), l, Self::form(id));
                assert((kept@ + languages@.take(i as int).map_values(Self::form(id))).push(
                    SiteLanguage { site_id: id, language_id: l },
                ) =~= kept@ + languages@.take(i as int).map_values(Self::form(id)).push(
                    SiteLanguage { site_id: id, language_id: l },
                ));
            }
            res.push(SiteLanguage { site_id: id, language_id: l });
            i += 1;
        }
        res
    }

    fn rows_of_others(rows: &Vec<SiteLanguage>, id: SiteId) -> (res: Vec<SiteLanguage>)
        ensures
            res@ == rows@.filter(Self::not_of(id)),
    {
        let mut res: Vec<SiteLanguage> = Vec::new();
        let mut i: usize = 0;
        proof {
            lemma_take_ends(rows@);
            reveal(Seq::filter);
        }
        while i < rows.len()
            invariant
                i <= rows.len(),
                res@ == rows@.take(i as int).filter(Self::not_of(id)),
            decreases rows.len() - i,
        {
            let row = rows[i];
            proof {
                lemma_take_push(rows@, i as int);
                lemma_filter_push(rows@.take(i as int), row, Self::not_of(id));
            }
            if row.site_id != id {
                res.push(row);
            }
            i += 1;
        }
        res
    }

    fn languages_in(rows: &Vec<SiteLanguage>, id: SiteId) -> (res: Vec<LanguageId>)
        ensures
            res@ == Self::languages_of(rows@, id),
    {
        let mut res: Vec<LanguageId> = Vec::new();
        let mut i: usize = 0;
        proof {
            lemma_take_ends(rows@);
            reveal(Seq::filter);
        }
        while i < rows.len()
            invariant
                i <= rows.len(),
                res@ == Self::languages_of(rows@.take(i as int), id),
            decreases rows.len() - i,
        {
            let row = rows[i];
            proof {
                lemma_take_push(rows@, i as int);
                lemma_filter_push(rows@.take(i as int), row, Self::of(id));
                lemma_map_push(rows@.take(i as int).filter(Self::of(id)), row, Self::language());
            }
            if row.site_id == id {
                res.push(row.language_id);
            }
            i += 1;
        }
        res
    }

    /// The languages of the site this server hosts.
    pub fn read_local(tables: &LanguageTables) -> (res: Result<Vec<LanguageId>, LanguageError>)
        ensures
            match tables.local_site {
                Some(site) => res matches Ok(languages) && languages@ == Self::languages_of(
                    tables.site_language@,
                    site,
                ),
                None => res == Err::<Vec<LanguageId>, LanguageError>(LanguageError::NotFound),
            },
    {
        match tables.local_site {
            Some(site) => Ok(Self::read(tables, site)),
            None => Err(LanguageError::NotFound),
        }
    }

    /// The languages of one site, in row order.
    pub fn read(tables: &LanguageTables, for_site_id: SiteId) -> (res: Vec<LanguageId>)
        ensures
            res@ == Self::languages_of(tables.site_language@, for_site_id),
    {
        Self::languages_in(&tables.site_language, for_site_id)
    }

    /// Replaces the languages of one site and narrows the local communities
    /// to them.
    ///
    /// An empty `language_ids` stands for every known language. Posts are
    /// checked against the languages of their community only, so a language
    /// that the site no longer accepts is taken from every local community.
    pub fn update(tables: &mut LanguageTables, language_ids: Vec<LanguageId>, for_site_id: SiteId)
        ensures
            final(tables).site_language@ == Self::replaced(
                old(tables).site_language@,
                for_site_id,
                effective_languages(language_ids@, old(tables).languages@),
            ),
            Self::languages_of(final(tables).site_language@, for_site_id) == effective_languages(
                language_ids@,
                old(tables).languages@,
            ),
            final(tables).community_language@ == CommunityLanguage::limited(
                old(tables).community_language@,
                old(tables).communities@,
                effective_languages(language_ids@, old(tables).languages@),
            ),
            final(tables).languages == old(tables).languages,
            final(tables).local_site == old(tables).local_site,
            final(tables).communities == old(tables).communities,
            final(tables).local_user_language == old(tables).local_user_language,
    {
        let kept = Self::rows_of_others(&tables.site_language, for_site_id);
        let lang_ids = update_languages(tables, language_ids);
        proof {
            Self::lemma_replaced_reads(tables.site_language@, for_site_id, lang_ids@, for_site_id);
        }
        tables.site_language = Self::rows_for(for_site_id, &lang_ids, kept);
        CommunityLanguage::limit_languages(tables, &lang_ids);
    }
}

impl CommunityLanguage {
    /// Test: the row belongs to community `id`.
    pub open spec fn of(id: CommunityId) -> spec_fn(CommunityLanguage) -> bool {
        |r: CommunityLanguage| r.community_id == id
    }

    /// Test: the row belongs to another community than `id`.
    pub open spec fn not_of(id: CommunityId) -> spec_fn(CommunityLanguage) -> bool {
        |r: CommunityLanguage| r.community_id != id
    }

    /// Projection of a row to its language.
    pub open spec fn language() -> spec_fn(CommunityLanguage) -> LanguageId {
        |r: CommunityLanguage| r.language_id
    }

    /// The row that records language `l` for community `id`.
    pub open spec fn form(id: CommunityId) -> spec_fn(LanguageId) -> CommunityLanguage {
        |l: LanguageId| CommunityLanguage { community_id: id, language_id: l }
    }

    /// The languages recorded for community `id`, in row order.
    pub open spec fn languages_of(rows: Seq<CommunityLanguage>, id: CommunityId) -> Seq<
        LanguageId,
    > {
        rows.filter(Self::of(id)).map_values(Self::language())
    }

    /// The table after community `id` was given `languages`: the rows of every
    /// other community in their old order, then one row per language.
    pub open spec fn replaced(
        rows: Seq<CommunityLanguage>,
        id: CommunityId,
        languages: Seq<LanguageId>,
    ) -> Seq<CommunityLanguage> {
        rows.filter(Self::not_of(id)) + languages.map_values(Self::form(id))
    }

    /// After community `id` was given `languages`, those are its languages, and
    /// the languages of every other community are what they were.
    pub proof fn lemma_replaced_reads(
        rows: Seq<CommunityLanguage>,
        id: CommunityId,
        languages: Seq<LanguageId>,
        other: CommunityId,
    )
        ensures
            Self::languages_of(Self::replaced(rows, id, languages), id) == languages,
            other != id ==> Self::languages_of(Self::replaced(rows, id, languages), other)
                == Self::languages_of(rows, other),
    {
        let kept = rows.filter(Self::not_of(id));
        let added = languages.map_values(Self::form(id));
        lemma_filter_kept(rows, Self::not_of(id));
        Seq::filter_distributes_over_add(kept, added, Self::of(id));
        lemma_filter_none(kept, Self::of(id));
        lemma_filter_all(added, Self::of(id));
        assert(added.map_values(Self::language()) =~= languages);
        assert(Seq::<CommunityLanguage>::empty() + added =~= added);
        if other != id {
            Seq::filter_distributes_over_add(kept, added, Self::of(other));
            lemma_filter_none(added, Self::of(other));
            lemma_filter_narrower(rows, Self::not_of(id), Self::of(other));
            assert(kept.filter(Self::of(other)) + Seq::<CommunityLanguage>::empty() =~= kept.filter(
                Self::of(other),
            ));
        }
    }

    fn rows_for(
        id: CommunityId,
        languages: &Vec<LanguageId>,
        kept: Vec<CommunityLanguage>,
    ) -> (res: Vec<CommunityLanguage>)
        ensures
            res@ == kept@ + languages@.map_values(Self::form(id)),
    {
        let mut res = kept;
        let mut i: usize = 0;
        proof {
            lemma_take_ends(languages@);
            assert(kept@ + Seq::<CommunityLanguage>::empty() =~= kept@);
            assert(Seq::<LanguageId>::empty().map_values(Self::form(id)) =~= Seq::<
                CommunityLanguage,
            >::empty());
        }
        while i < languages.len()
            invariant
                i <= languages.len(),
                res@ == kept@ + languages@.take(i as int).map_values(Self::form(id)),
            decreases languages.len() - i,
        {
            let l = languages[i];
            proof {
                lemma_take_push(languages@, i as int);
                lemma_map_push(languages@.take(i as int), l, Self::form(id));
                assert((kept@ + languages@.take(i as int).map_values(Self::form(id))).push(
                    CommunityLanguage { community_id: id, language_id: l },
                ) =~= kept@ + languages@.take(i as int).map_values(Self::form(id)).push(
                    CommunityLanguage { community_id: id, language_id: l },
                ));
            }
            res.push(CommunityLanguage { community_id: id, language_id: l });
            i += 1;
        }
        res
    }

    fn rows_of_others(rows: &Vec<CommunityLanguage>, id: CommunityId) -> (res: Vec<
        CommunityLanguage,
    >)
        ensures
            res@ == rows@.filter(Self::not_of(id)),
    {
        let mut res: Vec<CommunityLanguage> = Vec::new();
        let mut i: usize = 0;
        proof {
            lemma_take_ends(rows@);
            reveal(Seq::filter);
        }
        while i < rows.len()
            invariant
                i <= rows.len(),
                res@ == rows@.take(i as int).filter(Self::not_of(id)),
            decreases rows.len() - i,
        {
            let row = rows[i];
            proof {
                lemma_take_push(rows@, i as int);
                lemma_filter_push(rows@.take(i as int), row, Self::not_of(id));
            }
            if row.community_id != id {
                res.push(row);
            }
            i += 1;
        }
        res
    }

    fn languages_in(rows: &Vec<CommunityLanguage>, id: CommunityId) -> (res: Vec<LanguageId>)
        ensures
            res@ == Self::languages_of(rows@, id),
    {
        let mut res: Vec<LanguageId> = Vec::new();
        let mut i: usize = 0;
        proof {
            lemma_take_ends(rows@);
            reveal(Seq::filter);
        }
        while i < rows.len()
            invariant
                i <= rows.len(),
                res@ == Self::languages_of(rows@.take(i as int), id),
            decreases rows.len() - i,
        {
            let row = rows[i];
            proof {
                lemma_take_push(rows@, i as int);
                lemma_filter_push(rows@.take(i as int), row, Self::of(id));
                lemma_map_push(rows@.take(i as int).filter(Self::of(id)), row, Self::language());
            }
            if row.community_id == id {
                res.push(row.language_id);
            }
            i += 1;
        }
        res
    }

    /// Test: the row may stay when the site accepts `allowed` only. Rows of
    /// communities hosted elsewhere always stay.
    pub open spec fn within(communities: Seq<Community>, allowed: Seq<LanguageId>) -> spec_fn(
        CommunityLanguage,
    ) -> bool {
        |r: CommunityLanguage|
            !is_local_community(communities, r.community_id) || allowed.contains(r.language_id)
    }

    /// The community rows that stay when the site accepts `allowed` only.
    pub open spec fn limited(
        rows: Seq<CommunityLanguage>,
        communities: Seq<Community>,
        allowed: Seq<LanguageId>,
    ) -> Seq<CommunityLanguage> {
        rows.filter(Self::within(communities, allowed))
    }

    /// Succeeds exactly when the community accepts the language.
    pub fn is_allowed_community_language(
        tables: &LanguageTables,
        for_language_id: LanguageId,
        for_community_id: CommunityId,
    ) -> (res: Result<(), LanguageError>)
        ensures
            res is Ok <==> tables.community_language@.contains(
                CommunityLanguage { community_id: for_community_id, language_id: for_language_id },
            ),
            res is Err ==> res == Err::<(), LanguageError>(LanguageError::LanguageNotAllowed),
    {
        let rows = &tables.community_language;
        let mut i: usize = 0;
        while i < rows.len()
            invariant
                i <= rows.len(),
                rows@ == tables.community_language@,
                forall|j: int|
                    0 <= j < i ==> rows@[j] != (CommunityLanguage {
                        community_id: for_community_id,
                        language_id: for_language_id,
                    }),
            decreases rows.len() - i,
        {
            if rows[i].language_id == for_language_id && rows[i].community_id == for_community_id {
                assert(rows@[i as int] == CommunityLanguage {
                    community_id: for_community_id,
                    language_id: for_language_id,
                });
                return Ok(());
            }
            i += 1;
        }
        Err(LanguageError::LanguageNotAllowed)
    }

    /// Takes from every local community the languages that are not among
    /// `site_language_ids`. Communities hosted elsewhere keep theirs.
    pub fn limit_languages(tables: &mut LanguageTables, site_language_ids: &Vec<LanguageId>)
        ensures
            final(tables).community_language@ == Self::limited(
                old(tables).community_language@,
                old(tables).communities@,
                site_language_ids@,
            ),
            final(tables).languages == old(tables).languages,
            final(tables).local_site == old(tables).local_site,
            final(tables).communities == old(tables).communities,
            final(tables).local_user_language == old(tables).local_user_language,
            final(tables).site_language == old(tables).site_language,
    {
        let mut kept: Vec<CommunityLanguage> = Vec::new();
        let mut i: usize = 0;
        let ghost rows = tables.community_language@;
        let ghost keep = Self::within(tables.communities@, site_language_ids@);
        proof {
            lemma_take_ends(rows);
            reveal(Seq::filter);
        }
        while i < tables.community_language.len()
            invariant
                i <= rows.len(),
                rows == tables.community_language@,
                keep == Self::within(tables.communities@, site_language_ids@),
                kept@ == rows.take(i as int).filter(keep),
            decreases rows.len() - i,
        {
            let row = tables.community_language[i];
            proof {
                lemma_take_push(rows, i as int);
                lemma_filter_push(rows.take(i as int), row, keep);
            }
            if !hosts_community(&tables.communities, row.community_id) || contains_language(
                site_language_ids,
                row.language_id,
            ) {
                kept.push(row);
            }
            i += 1;
        }
        tables.community_language = kept;
    }

    /// The languages of one community, in row order.
    pub fn read(tables: &LanguageTables, for_community_id: CommunityId) -> (res: Vec<LanguageId>)
        ensures
            res@ == Self::languages_of(tables.community_language@, for_community_id),
    {
        Self::languages_in(&tables.community_language, for_community_id)
    }

    /// Replaces the languages of one community.
    ///
    /// An empty `language_ids` stands for every known language.
    pub fn update(
        tables: &mut LanguageTables,
        language_ids: Vec<LanguageId>,
        for_community_id: CommunityId,
    )
        ensures
            final(tables).community_language@ == Self::replaced(
                old(tables).community_language@,
                for_community_id,
                effective_languages(language_ids@, old(tables).languages@),
            ),
            Self::languages_of(final(tables).community_language@, for_community_id)
                == effective_languages(language_ids@, old(tables).languages@),
            final(tables).languages == old(tables).languages,
            final(tables).local_site == old(tables).local_site,
            final(tables).communities == old(tables).communities,
            final(tables).local_user_language == old(tables).local_user_language,
            final(tables).site_language == old(tables).site_language,
    {
        let kept = Self::rows_of_others(&tables.community_language, for_community_id);
        let lang_ids = update_languages(tables, language_ids);
        proof {
            Self::lemma_replaced_reads(
                tables.community_language@,
                for_community_id,
                lang_ids@,
                for_community_id,
            );
        }
        tables.community_language = Self::rows_for(for_community_id, &lang_ids, kept);
    }
}

} // verus!
