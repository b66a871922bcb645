use evo::catalogue::{Catalogue, Rack};
use evo::claimant::{ClaimantTokenIssuer, SharedIssuer};
use evo::state::{
    slot_label, StewardState, StewardStateBuildError, StewardStateBuilder, Stores,
};
use std::sync::Arc;

struct Plain;

impl Stores for Plain {
    type Subjects = u8;
    type Relations = u16;
    type Custody = u32;
    type Bus = u64;
    type Admin = i8;
    type Persistence = i16;
    type ConflictIndex = Vec<String>;
    type BearerTokenIssuer = ();
    type CredentialStore = ();
    type RevocationList = ();
    type CredentialVault = ();
    type CredentialChangeBus = u8;
    type OnlineProviderConfigStore = ();
    type OnlineProviderConfigBus = u8;
}

type Builder = StewardStateBuilder<Plain>;

fn issuer() -> Arc<SharedIssuer> {
    Arc::new(SharedIssuer::new(ClaimantTokenIssuer::new("test-instance")))
}

/// Every required handle but those that are named.
fn without(missing: &str) -> Builder {
    let mut b: Builder = StewardState::builder();
    if missing != "catalogue" {
        b = b.catalogue(Arc::new(Catalogue::default()));
    }
    if missing != "subjects" {
        b = b.subjects(Arc::new(1));
    }
    if missing != "relations" {
        b = b.relations(Arc::new(2));
    }
    if missing != "custody" {
        b = b.custody(Arc::new(3));
    }
    if missing != "bus" {
        b = b.bus(Arc::new(4));
    }
    if missing != "admin" {
        b = b.admin(Arc::new(5));
    }
    if missing != "persistence" {
        b = b.persistence(Arc::new(6));
    }
    if missing != "claimant_issuer" {
        b = b.claimant_issuer(issuer());
    }
    b
}

fn failure(missing: &str) -> StewardStateBuildError {
    match without(missing).build() {
        Ok(_) => panic!("build without {missing} should fail"),
        Err(e) => e,
    }
}

#[test]
fn builder_with_all_fields_returns_state() {
    let state = without("").build().ok().expect("build should succeed");
    assert_eq!(state.current_catalogue().racks.len(), 0);
    assert_eq!(*state.subjects, 1);
    assert_eq!(*state.relations, 2);
    assert_eq!(*state.custody, 3);
    assert_eq!(*state.bus, 4);
    assert_eq!(*state.admin, 5);
    assert_eq!(*state.persistence, 6);
    let (issuer, loan) = state.claimant_issuer.borrow_issuer();
    assert_eq!(issuer.instance_id, "test-instance");
    loan.give_back(issuer);
    assert!(state.conflict_index.is_empty());
    assert_eq!(slot_label(&state.bearer_token_issuer), "<unset>");
    assert_eq!(slot_label(&Some(1)), "<set>");
}

#[test]
fn builder_missing_catalogue_returns_error() {
    assert!(matches!(failure("catalogue"), StewardStateBuildError::MissingCatalogue));
}

#[test]
fn builder_missing_subjects_returns_error() {
    assert!(matches!(failure("subjects"), StewardStateBuildError::MissingSubjects));
}

#[test]
fn builder_missing_relations_returns_error() {
    assert!(matches!(failure("relations"), StewardStateBuildError::MissingRelations));
}

#[test]
fn builder_missing_custody_returns_error() {
    assert!(matches!(failure("custody"), StewardStateBuildError::MissingCustody));
}

#[test]
fn builder_missing_bus_returns_error() {
    assert!(matches!(failure("bus"), StewardStateBuildError::MissingBus));
}

#[test]
fn builder_missing_admin_returns_error() {
    assert!(matches!(failure("admin"), StewardStateBuildError::MissingAdmin));
}

#[test]
fn builder_missing_persistence_returns_error() {
    assert!(matches!(failure("persistence"), StewardStateBuildError::MissingPersistence));
}

#[test]
fn builder_missing_claimant_issuer_returns_error() {
    assert!(matches!(
        failure("claimant_issuer"),
        StewardStateBuildError::MissingClaimantIssuer
    ));
}

#[test]
fn build_errors_name_what_is_missing() {
    assert_eq!(
        failure("catalogue").as_str(),
        "StewardState builder is missing the catalogue handle"
    );
    assert_eq!(
        failure("claimant_issuer").as_str(),
        "StewardState builder is missing the claimant-token-issuer handle"
    );
}

#[test]
fn an_empty_builder_lacks_the_catalogue_first() {
    let b: Builder = StewardState::builder();
    assert!(matches!(b.build().err(), Some(StewardStateBuildError::MissingCatalogue)));
}

#[test]
fn a_given_conflict_index_is_kept() {
    let state = without("")
        .conflict_index(Arc::new(vec!["subject".to_string()]))
        .build()
        .ok()
        .unwrap();
    assert_eq!(*state.conflict_index, vec!["subject".to_string()]);
}

#[test]
fn a_published_catalogue_is_the_current_one() {
    let state = without("").build().ok().unwrap();
    let shared = Arc::clone(&state);
    let before = shared.current_catalogue();
    let next = Catalogue {
        racks: vec![Rack { name: "audio".into(), charter: "sound".into(), shelves: Vec::new() }],
        subjects: Vec::new(),
    };
    let replaced = state.publish_catalogue(Arc::new(next));
    assert_eq!(replaced.racks.len(), 0);
    assert_eq!(shared.current_catalogue().racks[0].name, "audio");
    assert_eq!(before.racks.len(), 0);
    assert_eq!(*shared.subjects, 1);
    let replaced = state.publish_catalogue(Arc::new(Catalogue::default()));
    assert_eq!(replaced.racks[0].name, "audio");
}

/// What another thread could be given to run.
fn shareable<F: FnOnce() + Send + 'static>(f: F) -> F {
    f
}

#[test]
fn state_handles_are_clonable_via_arc() {
    let state = without("").build().ok().expect("build should succeed");
    let cloned = Arc::clone(&state);
    let sharer = shareable(move || {
        let cat = cloned.current_catalogue();
        let _subjects = Arc::clone(&cloned.subjects);
        let _relations = Arc::clone(&cloned.relations);
        let _custody = Arc::clone(&cloned.custody);
        let _bus = Arc::clone(&cloned.bus);
        let _admin = Arc::clone(&cloned.admin);
        let _persistence = Arc::clone(&cloned.persistence);
        assert!(Arc::strong_count(&cat) >= 2);
    });
    sharer();
    let _ = state.current_catalogue();
}

#[test]
fn what_was_known_when_shared_lasts() {
    let mut first = ClaimantTokenIssuer::new("test-instance");
    let token = first.token_for("org.a");
    let shared = SharedIssuer::new(first);
    for name in ["org.b", "org.c"] {
        let (mut issuer, loan) = shared.borrow_issuer();
        issuer.record_version(name, "1.0");
        assert_eq!(issuer.resolve(&token.to_text()), Some(("org.a".to_string(), None)));
        loan.give_back(issuer);
    }
}

#[test]
fn sharers_see_what_earlier_borrowers_issued() {
    let state = without("").build().ok().unwrap();
    let (mut issuer, loan) = state.claimant_issuer.borrow_issuer();
    let token = issuer.token_for("org.a");
    loan.give_back(issuer);

    let sharer = Arc::clone(&state.claimant_issuer);
    let (mut issuer, loan) = sharer.borrow_issuer();
    assert_eq!(issuer.resolve(&token.to_text()), Some(("org.a".to_string(), None)));
    issuer.record_version("org.a", "2.0");
    loan.give_back(issuer);

    let (issuer, loan) = state.claimant_issuer.borrow_issuer();
    assert_eq!(
        issuer.resolve(&token.to_text()),
        Some(("org.a".to_string(), Some("2.0".to_string())))
    );
    loan.give_back(issuer);
}
