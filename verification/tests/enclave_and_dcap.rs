use automata_sgx_sdk::dcap::{dcap_quote, quote_step, Dcap, DcapError, Quote3Status, QuoteAction, QuoteEvent, QuoteStage, QUOTE_BUFFER_SIZE};
use automata_sgx_sdk::enclave::{ecall_outcome, AppError, EidStep, EnclaveSlot, SgxEnclave};

#[test]
fn enclave_debug_mode_follows_sgx_debug() {
    let e = SgxEnclave::new("libmy_enclave.signed.so", &None);
    assert!(!e.debug);
    assert_eq!(e.name, "libmy_enclave.signed.so");
    assert!(!SgxEnclave::new("x", &Some(String::new())).debug);
    assert!(SgxEnclave::new("x", &Some("1".to_string())).debug);
}

#[test]
fn enclave_is_created_once_next_to_the_program() {
    let e = SgxEnclave::new("libe.signed.so", &None);
    assert_eq!(e.enclave_path("/usr/bin/app"), Some("/usr/bin/libe.signed.so".to_string()));
    assert_eq!(e.enclave_path("app"), Some("libe.signed.so".to_string()));
    assert_eq!(e.enclave_path(""), None);

    let mut slot = EnclaveSlot::Empty;
    assert!(e.try_eid(&slot, "").is_none());
    assert!(matches!(e.try_eid(&slot, "./app"), Some(EidStep::Create { .. })));
    let path = match e.eid(&slot, "./app") {
        EidStep::Create { path, debug } => {
            assert!(!debug);
            path
        }
        EidStep::Done(_) => panic!("nothing was created yet"),
    };
    assert_eq!(path, "./libe.signed.so");
    assert_eq!(SgxEnclave::record_creation(&mut slot, &path, Ok(7)).unwrap(), 7);
    assert!(matches!(e.eid(&slot, "./app"), EidStep::Done(Ok(7))));
    assert!(matches!(e.try_eid(&slot, ""), Some(EidStep::Done(Ok(7)))));

    let mut failed = EnclaveSlot::Empty;
    let err = SgxEnclave::record_creation(&mut failed, "/x/e.so", Err(0x2001)).unwrap_err();
    match &err {
        AppError::CreateEnclave { path, source } => {
            assert_eq!(path, "/x/e.so");
            assert!(matches!(**source, AppError::Sgx(0x2001)));
        }
        _ => panic!("expected a creation error"),
    }
    match e.eid(&failed, "./app") {
        EidStep::Done(Err(AppError::CreateEnclave { path, .. })) => assert_eq!(path, "/x/e.so"),
        _ => panic!("the failure is remembered"),
    }
}

#[test]
fn ecall_failures_name_the_call() {
    assert_eq!(ecall_outcome("run", 0, 5u8).unwrap(), 5);
    match ecall_outcome("run", 1, ()) {
        Err(AppError::OnEcall { name, source }) => {
            assert_eq!(name, "run");
            assert!(matches!(*source, AppError::Sgx(1)));
        }
        _ => panic!("expected an ecall error"),
    }
    let copy = AppError::on_ecall("f", AppError::Sgx(3)).duplicate();
    assert!(matches!(copy, AppError::OnEcall { .. }));
}

#[test]
fn attestation_is_unsupported_outside_an_enclave() {
    assert!(matches!(dcap_quote([7u8; 64]), Err(DcapError::Unsupported)));
}

fn status(code: u32, name: &str) -> Quote3Status {
    Quote3Status { code, name: name.to_string() }
}

#[test]
fn quote_outcomes_truncate_or_fail() {
    assert_eq!(Dcap::quote_outcome(&status(0, "SGX_QL_SUCCESS"), vec![1, 2, 3, 4], 2).unwrap(), vec![1, 2]);
    assert_eq!(Dcap::quote_outcome(&status(0, "SGX_QL_SUCCESS"), vec![1, 2], 9).unwrap(), vec![1, 2]);
    assert!(matches!(Dcap::quote_outcome(&status(0xe019, "SGX_QL_ERROR_BUSY"), vec![1], 1),
        Err(DcapError::Quote3(n)) if n == "SGX_QL_ERROR_BUSY"));
    assert_eq!(Dcap::target_outcome(&status(0, "SGX_QL_SUCCESS"), vec![9]).unwrap(), vec![9]);
    assert!(Dcap::target_outcome(&status(1, "X"), vec![9]).is_err());
}

#[test]
fn a_quote_is_made_in_three_calls() {
    let data = [5u8; 64];
    let (s, a) = quote_step(QuoteStage::Start(data), QuoteEvent::Begin);
    assert!(matches!(a, QuoteAction::GetTarget));
    let (s, a) = quote_step(s, QuoteEvent::Target { status: status(0, "SGX_QL_SUCCESS"), target: vec![1; 8] });
    match a {
        QuoteAction::CreateReport { target, data: d } => {
            assert_eq!(target, vec![1; 8]);
            assert_eq!(d, data);
        }
        _ => panic!("expected a report"),
    }
    let (s, a) = quote_step(s, QuoteEvent::Report { report: vec![2; 4] });
    match a {
        QuoteAction::GetQuote { report, capacity } => {
            assert_eq!(report, vec![2; 4]);
            assert_eq!(capacity, QUOTE_BUFFER_SIZE);
            assert_eq!(capacity, 25600);
        }
        _ => panic!("expected a quote request"),
    }
    let mut buffer = vec![0u8; 16];
    buffer[0] = 42;
    let (s, a) = quote_step(s, QuoteEvent::Quote { status: status(0, "SGX_QL_SUCCESS"), buffer, filled: 3 });
    assert!(matches!(s, QuoteStage::Finished));
    match a {
        QuoteAction::Done(Ok(q)) => assert_eq!(q, vec![42, 0, 0]),
        _ => panic!("expected the quote"),
    }
    let (s, a) = quote_step(s, QuoteEvent::Begin);
    assert!(matches!(s, QuoteStage::Finished));
    assert!(matches!(a, QuoteAction::Ignore));
}

#[test]
fn a_failed_call_ends_the_quote_under_its_frame() {
    let (s, _) = quote_step(QuoteStage::Start([0u8; 64]), QuoteEvent::Begin);
    let (s, a) = quote_step(s, QuoteEvent::Target { status: status(0xe01a, "SGX_QL_ERROR_UNEXPECTED"), target: vec![] });
    assert!(matches!(s, QuoteStage::Finished));
    match a {
        QuoteAction::Done(Err(DcapError::GetTarget(inner))) => {
            assert!(matches!(*inner, DcapError::Quote3(ref n) if n == "SGX_QL_ERROR_UNEXPECTED"))
        }
        _ => panic!("expected a target error"),
    }
    let (s, a) = quote_step(QuoteStage::AwaitQuote([0u8; 64]), QuoteEvent::Quote { status: status(3, "E"), buffer: vec![], filled: 0 });
    assert!(matches!(s, QuoteStage::Finished));
    assert!(matches!(a, QuoteAction::Done(Err(DcapError::GetQuote(_)))));
    let (s, a) = quote_step(QuoteStage::AwaitReport([0u8; 64]), QuoteEvent::Begin);
    assert!(matches!(s, QuoteStage::AwaitReport(_)));
    assert!(matches!(a, QuoteAction::Ignore));
}
