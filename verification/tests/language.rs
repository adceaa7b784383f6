use federation_core::actor_language::{
    update_languages, Community, CommunityLanguage, LanguageError, LanguageTables,
    LocalUserLanguage, SiteLanguage,
};
use federation_core::newtypes::{CommunityId, LanguageId, LocalUserId, SiteId};

fn langs(ids: &[i32]) -> Vec<LanguageId> {
    ids.iter().map(|i| LanguageId(*i)).collect()
}

fn tables() -> LanguageTables {
    LanguageTables {
        languages: langs(&[1, 2, 3, 4]),
        local_site: Some(SiteId(1)),
        communities: vec![
            Community { id: CommunityId(10), local: true },
            Community { id: CommunityId(20), local: false },
        ],
        local_user_language: vec![
            LocalUserLanguage { local_user_id: LocalUserId(7), language_id: LanguageId(1) },
            LocalUserLanguage { local_user_id: LocalUserId(8), language_id: LanguageId(2) },
            LocalUserLanguage { local_user_id: LocalUserId(7), language_id: LanguageId(3) },
        ],
        site_language: vec![
            SiteLanguage { site_id: SiteId(1), language_id: LanguageId(1) },
            SiteLanguage { site_id: SiteId(1), language_id: LanguageId(2) },
            SiteLanguage { site_id: SiteId(2), language_id: LanguageId(4) },
        ],
        community_language: vec![
            CommunityLanguage { community_id: CommunityId(10), language_id: LanguageId(1) },
            CommunityLanguage { community_id: CommunityId(10), language_id: LanguageId(3) },
            CommunityLanguage { community_id: CommunityId(20), language_id: LanguageId(3) },
            CommunityLanguage { community_id: CommunityId(20), language_id: LanguageId(4) },
        ],
    }
}

#[test]
fn update_languages_keeps_a_given_list() {
    let t = tables();
    assert_eq!(update_languages(&t, langs(&[3, 1])), langs(&[3, 1]));
}

#[test]
fn update_languages_with_empty_list_gives_all() {
    let t = tables();
    assert_eq!(update_languages(&t, vec![]), langs(&[1, 2, 3, 4]));
}

#[test]
fn local_user_read_returns_rows_in_order() {
    let t = tables();
    assert_eq!(LocalUserLanguage::read(&t, LocalUserId(7)), langs(&[1, 3]));
    assert_eq!(LocalUserLanguage::read(&t, LocalUserId(8)), langs(&[2]));
    assert_eq!(LocalUserLanguage::read(&t, LocalUserId(9)), langs(&[]));
}

#[test]
fn local_user_update_replaces_only_that_user() {
    let mut t = tables();
    LocalUserLanguage::update(&mut t, langs(&[4, 2]), LocalUserId(7));
    assert_eq!(LocalUserLanguage::read(&t, LocalUserId(7)), langs(&[4, 2]));
    assert_eq!(LocalUserLanguage::read(&t, LocalUserId(8)), langs(&[2]));
    assert_eq!(
        t.local_user_language,
        vec![
            LocalUserLanguage { local_user_id: LocalUserId(8), language_id: LanguageId(2) },
            LocalUserLanguage { local_user_id: LocalUserId(7), language_id: LanguageId(4) },
            LocalUserLanguage { local_user_id: LocalUserId(7), language_id: LanguageId(2) },
        ]
    );
    assert_eq!(t.site_language, tables().site_language);
    assert_eq!(t.community_language, tables().community_language);
}

#[test]
fn local_user_update_with_empty_list_stores_every_language() {
    let mut t = tables();
    LocalUserLanguage::update(&mut t, vec![], LocalUserId(8));
    assert_eq!(LocalUserLanguage::read(&t, LocalUserId(8)), langs(&[1, 2, 3, 4]));
    assert_eq!(LocalUserLanguage::read(&t, LocalUserId(7)), langs(&[1, 3]));
}

#[test]
fn site_read_and_read_local() {
    let t = tables();
    assert_eq!(SiteLanguage::read(&t, SiteId(1)), langs(&[1, 2]));
    assert_eq!(SiteLanguage::read(&t, SiteId(2)), langs(&[4]));
    assert_eq!(SiteLanguage::read_local(&t), Ok(langs(&[1, 2])));
}

#[test]
fn site_read_local_without_a_site_is_not_found() {
    let mut t = tables();
    t.local_site = None;
    assert_eq!(SiteLanguage::read_local(&t), Err(LanguageError::NotFound));
}

#[test]
fn site_update_limits_local_communities_only() {
    let mut t = tables();
    SiteLanguage::update(&mut t, langs(&[1, 2]), SiteId(1));
    assert_eq!(SiteLanguage::read(&t, SiteId(1)), langs(&[1, 2]));
    assert_eq!(SiteLanguage::read(&t, SiteId(2)), langs(&[4]));
    // community 10 is local and loses language 3; community 20 is remote and keeps all
    assert_eq!(CommunityLanguage::read(&t, CommunityId(10)), langs(&[1]));
    assert_eq!(CommunityLanguage::read(&t, CommunityId(20)), langs(&[3, 4]));
}

#[test]
fn site_update_with_empty_list_limits_nothing() {
    let mut t = tables();
    SiteLanguage::update(&mut t, vec![], SiteId(1));
    assert_eq!(SiteLanguage::read(&t, SiteId(1)), langs(&[1, 2, 3, 4]));
    assert_eq!(t.community_language, tables().community_language);
}

#[test]
fn limit_languages_removes_what_the_site_dropped() {
    let mut t = tables();
    CommunityLanguage::limit_languages(&mut t, &langs(&[3]));
    assert_eq!(
        t.community_language,
        vec![
            CommunityLanguage { community_id: CommunityId(10), language_id: LanguageId(3) },
            CommunityLanguage { community_id: CommunityId(20), language_id: LanguageId(3) },
            CommunityLanguage { community_id: CommunityId(20), language_id: LanguageId(4) },
        ]
    );
}

#[test]
fn community_language_is_allowed_or_not() {
    let t = tables();
    assert_eq!(
        CommunityLanguage::is_allowed_community_language(&t, LanguageId(3), CommunityId(10)),
        Ok(())
    );
    assert_eq!(
        CommunityLanguage::is_allowed_community_language(&t, LanguageId(4), CommunityId(10)),
        Err(LanguageError::LanguageNotAllowed)
    );
    assert_eq!(
        CommunityLanguage::is_allowed_community_language(&t, LanguageId(1), CommunityId(99)),
        Err(LanguageError::LanguageNotAllowed)
    );
}

#[test]
fn community_update_replaces_only_that_community() {
    let mut t = tables();
    CommunityLanguage::update(&mut t, langs(&[2]), CommunityId(20));
    assert_eq!(CommunityLanguage::read(&t, CommunityId(20)), langs(&[2]));
    assert_eq!(CommunityLanguage::read(&t, CommunityId(10)), langs(&[1, 3]));
    CommunityLanguage::update(&mut t, vec![], CommunityId(10));
    assert_eq!(CommunityLanguage::read(&t, CommunityId(10)), langs(&[1, 2, 3, 4]));
}
