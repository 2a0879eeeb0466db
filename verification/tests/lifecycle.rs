use encryption_box::boxes::CipherBox;
use encryption_box::create::{
    CreateAction, CreateEvent, Creation, ParamsOfTerminalEncryptionBox, PROMPT,
};
use encryption_box::engine::EngineFailure;
use encryption_box::error::{CreateError, KeyResolutionFailure, RegistrationFailure};
use encryption_box::handle::{deregistered, EncryptionBoxHandle, TerminalEncryptionBox};
use encryption_box::material::EncryptionBoxType;

const NONCE: &str = "000000000000000000000001";
const THEIRS: &str = "c4e2d9fe6a6baf8d1812b799856ef2a306291be7a7024837ad33a8530db79c6b";
const SEED: &str = "abandon ability able about above absent absorb abstract absurd abuse access accident";

fn params(box_type: EncryptionBoxType) -> ParamsOfTerminalEncryptionBox {
    ParamsOfTerminalEncryptionBox {
        box_type,
        their_pubkey: match box_type {
            EncryptionBoxType::NaCl => THEIRS.to_string(),
            _ => String::new(),
        },
        nonce: NONCE.to_string(),
    }
}

fn refuse(code: u32, words: &str) -> EngineFailure {
    EngineFailure { code, message: words.to_string() }
}

// Runs a creation over `events` and gives the last state with every action,
// the first one included.
fn run(p: ParamsOfTerminalEncryptionBox, events: Vec<CreateEvent>) -> (Creation, Vec<CreateAction>) {
    let (mut state, first) = TerminalEncryptionBox::new(p);
    let mut actions = vec![first];
    for event in events {
        let (next, action) = state.step(event);
        state = next;
        actions.push(action);
    }
    (state, actions)
}

fn registering(box_type: EncryptionBoxType) -> Creation {
    let (state, _) = run(
        params(box_type),
        vec![CreateEvent::SecretEntered(SEED.to_string()), CreateEvent::KeyLoaded("1f".to_string())],
    );
    assert!(matches!(state, Creation::Registering));
    state
}

fn wrapper(handle: u32) -> TerminalEncryptionBox {
    let state = registering(EncryptionBoxType::SecretNaCl);
    match state.step(CreateEvent::Registered(EncryptionBoxHandle(handle))) {
        (Creation::Done, CreateAction::Deliver(w)) => w,
        other => panic!("unexpected {:?}", other),
    }
}

fn engine_calls(actions: &[CreateAction]) -> usize {
    actions
        .iter()
        .filter(|a| {
            matches!(
                a,
                CreateAction::Register(_) | CreateAction::Deregister(_) | CreateAction::Deliver(_)
            )
        })
        .count()
}

#[test]
fn the_operator_is_asked_first() {
    assert_eq!(PROMPT, "enter seed phrase or path to keypair file");
    for kind in [EncryptionBoxType::SecretNaCl, EncryptionBoxType::NaCl, EncryptionBoxType::ChaCha20]
    {
        let (state, action) = TerminalEncryptionBox::new(params(kind));
        assert!(matches!(action, CreateAction::Prompt));
        match state {
            Creation::AwaitingSecret(p) => {
                assert_eq!(p.box_type, kind);
                assert_eq!(p.nonce, NONCE);
            }
            other => panic!("unexpected {:?}", other),
        }
    }
}

#[test]
fn public_key_cipher_without_the_other_key_fails_at_once() {
    let mut p = params(EncryptionBoxType::NaCl);
    p.their_pubkey = String::new();
    let (state, action) = TerminalEncryptionBox::new(p);
    assert!(matches!(state, Creation::Done));
    match action {
        CreateAction::Fail(e) => {
            assert!(matches!(e, CreateError::MissingCounterpartyKey));
            assert_eq!(e.message(), "the public key of the other party is missing");
        }
        other => panic!("unexpected {:?}", other),
    }
    let mut p = params(EncryptionBoxType::NaCl);
    p.their_pubkey = String::new();
    let (state, actions) = run(
        p,
        vec![
            CreateEvent::SecretEntered(SEED.to_string()),
            CreateEvent::KeyLoaded("1f".to_string()),
            CreateEvent::Registered(EncryptionBoxHandle(5)),
        ],
    );
    assert!(matches!(state, Creation::Done));
    assert_eq!(engine_calls(&actions), 0);
    assert!(actions[1..].iter().all(|a| matches!(a, CreateAction::Nothing)));
}

#[test]
fn other_ciphers_need_no_counterparty_key() {
    for kind in [EncryptionBoxType::SecretNaCl, EncryptionBoxType::ChaCha20] {
        let (_, action) = TerminalEncryptionBox::new(params(kind));
        assert!(matches!(action, CreateAction::Prompt));
    }
}

#[test]
fn empty_input_fails_before_any_engine_call() {
    for line in ["", "   ", "\t\n", "\u{a0}"] {
        let (state, actions) = run(
            params(EncryptionBoxType::SecretNaCl),
            vec![
                CreateEvent::SecretEntered(line.to_string()),
                CreateEvent::KeyLoaded("1f".to_string()),
                CreateEvent::Registered(EncryptionBoxHandle(9)),
                CreateEvent::RegistrationRefused(refuse(1, "late")),
            ],
        );
        assert!(matches!(state, Creation::Done));
        assert_eq!(actions.len(), 5);
        assert!(matches!(actions[0], CreateAction::Prompt));
        match &actions[1] {
            CreateAction::Fail(e) => {
                assert!(matches!(
                    e,
                    CreateError::KeyResolution(KeyResolutionFailure::EmptySecret)
                ));
                assert_eq!(e.message(), "no seed phrase or keypair file was entered");
            }
            other => panic!("unexpected {:?}", other),
        }
        assert!(actions[2..].iter().all(|a| matches!(a, CreateAction::Nothing)));
        assert_eq!(engine_calls(&actions), 0);
        assert!(!actions.iter().any(|a| matches!(a, CreateAction::LoadKeypair(_))));
    }
}

#[test]
fn an_entry_goes_to_the_loader_as_it_was_entered() {
    let (state, actions) = run(
        params(EncryptionBoxType::ChaCha20),
        vec![CreateEvent::SecretEntered(format!(" {} ", SEED))],
    );
    match &actions[1] {
        CreateAction::LoadKeypair(entry) => assert_eq!(entry, &format!(" {} ", SEED)),
        other => panic!("unexpected {:?}", other),
    }
    match state {
        Creation::ResolvingKey { params, entry } => {
            assert_eq!(entry, format!(" {} ", SEED));
            assert_eq!(params.box_type, EncryptionBoxType::ChaCha20);
        }
        other => panic!("unexpected {:?}", other),
    }
}

#[test]
fn a_refusal_of_the_loader_is_passed_on_in_its_words() {
    let (state, actions) = run(
        params(EncryptionBoxType::SecretNaCl),
        vec![
            CreateEvent::SecretEntered(SEED.to_string()),
            CreateEvent::KeyRejected("invalid mnemonic: bad checksum".to_string()),
        ],
    );
    assert!(matches!(state, Creation::Done));
    match &actions[2] {
        CreateAction::Fail(e) => {
            match e {
                CreateError::KeyResolution(KeyResolutionFailure::Rejected(words)) => {
                    assert_eq!(words, "invalid mnemonic: bad checksum")
                }
                other => panic!("unexpected {:?}", other),
            }
            assert_eq!(e.message(), "invalid mnemonic: bad checksum");
        }
        other => panic!("unexpected {:?}", other),
    }
    assert_eq!(engine_calls(&actions), 0);
}

#[test]
fn a_refusal_that_echoes_the_entry_is_withheld() {
    for words in [
        format!("failed to read keypair file {}", SEED),
        format!("\"{}\" is not a mnemonic", SEED),
        SEED.to_string(),
    ] {
        let (_, actions) = run(
            params(EncryptionBoxType::SecretNaCl),
            vec![
                CreateEvent::SecretEntered(format!("  {}\n", SEED)),
                CreateEvent::KeyRejected(words),
            ],
        );
        match &actions[2] {
            CreateAction::Fail(e) => {
                assert!(matches!(
                    e,
                    CreateError::KeyResolution(KeyResolutionFailure::Undisclosed)
                ));
                assert!(!e.message().contains(SEED));
                assert_eq!(e.message(), "the seed phrase or keypair file could not be resolved");
            }
            other => panic!("unexpected {:?}", other),
        }
    }
}

#[test]
fn a_key_that_is_not_hexadecimal_is_refused() {
    for secret in ["", "xyz", "12 34", &"f".repeat(65)] {
        let (state, actions) = run(
            params(EncryptionBoxType::SecretNaCl),
            vec![
                CreateEvent::SecretEntered(SEED.to_string()),
                CreateEvent::KeyLoaded(secret.to_string()),
            ],
        );
        assert!(matches!(state, Creation::Done));
        match &actions[2] {
            CreateAction::Fail(e) => {
                assert!(matches!(
                    e,
                    CreateError::KeyResolution(KeyResolutionFailure::MalformedKey)
                ));
                assert_eq!(e.message(), "the secret key is not hexadecimal of at most 64 digits");
            }
            other => panic!("unexpected {:?}", other),
        }
        assert_eq!(engine_calls(&actions), 0);
    }
}

#[test]
fn a_nonce_of_the_wrong_shape_fails_when_the_box_is_to_be_registered() {
    for nonce in ["", "0001", "00000000000000000000000100", "00000000000000000000000z"] {
        let mut p = params(EncryptionBoxType::ChaCha20);
        p.nonce = nonce.to_string();
        let (state, actions) = run(
            p,
            vec![
                CreateEvent::SecretEntered(SEED.to_string()),
                CreateEvent::KeyLoaded("1f".to_string()),
            ],
        );
        assert!(matches!(state, Creation::Done));
        assert!(matches!(actions[0], CreateAction::Prompt));
        assert!(matches!(actions[1], CreateAction::LoadKeypair(_)));
        match &actions[2] {
            CreateAction::Fail(e) => {
                assert!(matches!(e, CreateError::Registration(RegistrationFailure::BadNonce)));
                assert_eq!(
                    e.message(),
                    "the nonce is not hexadecimal of the width that the cipher takes"
                );
            }
            other => panic!("unexpected {:?}", other),
        }
        assert_eq!(engine_calls(&actions), 0);
    }
}

#[test]
fn the_box_is_built_over_the_key_in_full_width() {
    let full = format!("{}1f", "0".repeat(62));
    for kind in [EncryptionBoxType::SecretNaCl, EncryptionBoxType::NaCl, EncryptionBoxType::ChaCha20]
    {
        let (state, mut actions) = run(
            params(kind),
            vec![
                CreateEvent::SecretEntered(SEED.to_string()),
                CreateEvent::KeyLoaded("1f".to_string()),
            ],
        );
        assert!(matches!(state, Creation::Registering));
        match actions.remove(2) {
            CreateAction::Register(CipherBox::Secret(b)) => {
                assert_eq!(kind, EncryptionBoxType::SecretNaCl);
                assert_eq!(b.key, full);
                assert_eq!(b.nonce, NONCE);
            }
            CreateAction::Register(CipherBox::Public(b)) => {
                assert_eq!(kind, EncryptionBoxType::NaCl);
                assert_eq!(b.secret, full);
                assert_eq!(b.their_pubkey, THEIRS);
                assert_eq!(b.nonce, NONCE);
            }
            CreateAction::Register(CipherBox::Stream(b)) => {
                assert_eq!(kind, EncryptionBoxType::ChaCha20);
                assert_eq!(b.key, full);
                assert_eq!(b.nonce, NONCE);
            }
            other => panic!("unexpected {:?}", other),
        }
    }
}

#[test]
fn a_confirmed_registration_delivers_the_wrapper() {
    let state = registering(EncryptionBoxType::NaCl);
    let (state, action) = state.step(CreateEvent::Registered(EncryptionBoxHandle(42)));
    assert!(matches!(state, Creation::Done));
    match action {
        CreateAction::Deliver(w) => {
            assert_eq!(w.handle(), EncryptionBoxHandle(42));
            assert!(w.owns_handle());
        }
        other => panic!("unexpected {:?}", other),
    }
}

#[test]
fn a_refused_registration_delivers_no_wrapper() {
    let state = registering(EncryptionBoxType::SecretNaCl);
    let (state, action) =
        state.step(CreateEvent::RegistrationRefused(refuse(23, "engine is shutting down")));
    assert!(matches!(state, Creation::Done));
    match action {
        CreateAction::Fail(e) => {
            match &e {
                CreateError::Registration(RegistrationFailure::Refused(f)) => {
                    assert_eq!(f.code, 23);
                    assert_eq!(f.message, "engine is shutting down");
                }
                other => panic!("unexpected {:?}", other),
            }
            assert_eq!(e.message(), "engine is shutting down");
        }
        other => panic!("unexpected {:?}", other),
    }
    let (state, action) = state.step(CreateEvent::Registered(EncryptionBoxHandle(42)));
    assert!(matches!(state, Creation::Done));
    assert!(matches!(action, CreateAction::Nothing));
}

#[test]
fn the_handle_that_names_no_box_is_no_registration() {
    let state = registering(EncryptionBoxType::SecretNaCl);
    let (state, action) = state.step(CreateEvent::Registered(EncryptionBoxHandle(0)));
    assert!(matches!(state, Creation::Done));
    match action {
        CreateAction::Fail(e) => {
            assert!(matches!(e, CreateError::Registration(RegistrationFailure::NoHandle)));
            assert_eq!(e.message(), "the engine gave no handle for the box");
        }
        other => panic!("unexpected {:?}", other),
    }
}

#[test]
fn events_out_of_turn_change_nothing() {
    let (state, _) = TerminalEncryptionBox::new(params(EncryptionBoxType::SecretNaCl));
    let (state, action) = state.step(CreateEvent::Registered(EncryptionBoxHandle(7)));
    assert!(matches!(state, Creation::AwaitingSecret(_)));
    assert!(matches!(action, CreateAction::Nothing));
    let (state, action) = state.step(CreateEvent::KeyLoaded("1f".to_string()));
    assert!(matches!(state, Creation::AwaitingSecret(_)));
    assert!(matches!(action, CreateAction::Nothing));
    let (state, _) = state.step(CreateEvent::SecretEntered(SEED.to_string()));
    let (state, action) = state.step(CreateEvent::SecretEntered("again".to_string()));
    assert!(matches!(state, Creation::ResolvingKey { .. }));
    assert!(matches!(action, CreateAction::Nothing));
    let (state, action) = state.step(CreateEvent::RegistrationRefused(refuse(1, "x")));
    assert!(matches!(state, Creation::ResolvingKey { .. }));
    assert!(matches!(action, CreateAction::Nothing));
    let state = registering(EncryptionBoxType::SecretNaCl);
    let (state, action) = state.step(CreateEvent::KeyRejected("x".to_string()));
    assert!(matches!(state, Creation::Registering));
    assert!(matches!(action, CreateAction::Nothing));
}

#[test]
fn giving_up_before_registration_leaves_nothing_to_clean() {
    let (state, _) = TerminalEncryptionBox::new(params(EncryptionBoxType::SecretNaCl));
    let (state, action) = state.step(CreateEvent::Cancelled);
    assert!(matches!(state, Creation::Abandoned { registering: false }));
    assert!(matches!(action, CreateAction::Nothing));
    let (state, action) = state.step(CreateEvent::Registered(EncryptionBoxHandle(3)));
    assert!(matches!(state, Creation::Abandoned { registering: false }));
    assert!(matches!(action, CreateAction::Nothing));
    let (state, _) = run(
        params(EncryptionBoxType::SecretNaCl),
        vec![CreateEvent::SecretEntered(SEED.to_string()), CreateEvent::Cancelled],
    );
    assert!(matches!(state, Creation::Abandoned { registering: false }));
}

#[test]
fn giving_up_while_registering_deregisters_the_orphan() {
    let state = registering(EncryptionBoxType::ChaCha20);
    let (state, action) = state.step(CreateEvent::Cancelled);
    assert!(matches!(state, Creation::Abandoned { registering: true }));
    assert!(matches!(action, CreateAction::Nothing));
    let (state, action) = state.step(CreateEvent::Registered(EncryptionBoxHandle(11)));
    assert!(matches!(state, Creation::Abandoned { registering: false }));
    match action {
        CreateAction::Deregister(h) => assert_eq!(h, EncryptionBoxHandle(11)),
        other => panic!("unexpected {:?}", other),
    }
    let (_, action) = state.step(CreateEvent::Registered(EncryptionBoxHandle(11)));
    assert!(matches!(action, CreateAction::Nothing));

    let state = registering(EncryptionBoxType::ChaCha20);
    let (state, _) = state.step(CreateEvent::Cancelled);
    let (state, action) = state.step(CreateEvent::RegistrationRefused(refuse(1, "no")));
    assert!(matches!(state, Creation::Abandoned { registering: false }));
    assert!(matches!(action, CreateAction::Nothing));

    let state = registering(EncryptionBoxType::ChaCha20);
    let (state, _) = state.step(CreateEvent::Cancelled);
    let (state, action) = state.step(CreateEvent::Registered(EncryptionBoxHandle(0)));
    assert!(matches!(state, Creation::Abandoned { registering: false }));
    assert!(matches!(action, CreateAction::Nothing));
}

#[test]
fn giving_up_after_the_end_changes_nothing() {
    let state = registering(EncryptionBoxType::SecretNaCl);
    let (state, _) = state.step(CreateEvent::Registered(EncryptionBoxHandle(42)));
    let (state, action) = state.step(CreateEvent::Cancelled);
    assert!(matches!(state, Creation::Done));
    assert!(matches!(action, CreateAction::Nothing));
}

#[test]
fn handle_reads_what_the_wrapper_holds() {
    let w = wrapper(42);
    assert_eq!(w.handle(), EncryptionBoxHandle(42));
    assert_eq!(w.handle().0, 42);
    assert!(w.owns_handle());
    let w = wrapper(u32::MAX);
    assert_eq!(w.handle(), EncryptionBoxHandle(u32::MAX));
}

#[test]
fn an_unregistered_wrapper_owns_nothing() {
    let mut w = TerminalEncryptionBox::unregistered();
    assert_eq!(w.handle(), EncryptionBoxHandle(0));
    assert!(!w.owns_handle());
    assert_eq!(w.release(), None);
    assert_eq!(w.handle(), EncryptionBoxHandle(0));
}

#[test]
fn release_twice_deregisters_once() {
    let mut w = wrapper(42);
    assert_eq!(w.release(), Some(EncryptionBoxHandle(42)));
    assert!(!w.owns_handle());
    assert_eq!(w.handle(), EncryptionBoxHandle(0));
    assert_eq!(w.release(), None);
    assert_eq!(w.release(), None);
    assert_eq!(w.handle(), EncryptionBoxHandle(0));
}

#[test]
fn many_releases_ask_for_one_deregistration() {
    let mut w = wrapper(7);
    let mut asked = 0;
    for _ in 0..10 {
        if w.release().is_some() {
            asked += 1;
        }
    }
    assert_eq!(asked, 1);
}

#[test]
fn a_refused_deregistration_is_a_warning() {
    assert!(deregistered(EncryptionBoxHandle(42), Ok(())).is_none());
    let w = deregistered(EncryptionBoxHandle(42), Err(refuse(123, "box is not registered")))
        .unwrap();
    assert_eq!(w.handle, EncryptionBoxHandle(42));
    assert_eq!(w.failure.code, 123);
    assert_eq!(w.failure.message, "box is not registered");
}
