use embed_probe::cancellation::{
    program_entry, InvocationCancellationWatcher, ProofCancellationToken, WatcherAction,
    WATCHER_INTERVAL,
};
use embed_probe::digest::{decode_hex, verify_bundle_sha256};
use embed_probe::invocation::{
    nimbus_bun_embed_invoke_program_wrapper_json,
    nimbus_bun_embed_invoke_program_wrapper_json_with_host_bridge, Invocation,
    InvocationArguments, InvocationRun, InvocationSeen,
};
use embed_probe::response::{
    clear_pending_invocation_response, deliver_response, finish_invocation,
    nimbus_bun_embed_take_pending_response, Delivery, PendingInvocationResponse,
};

const DIGEST: [u8; 32] = [
    0x00, 0x01, 0x0f, 0x10, 0x7f, 0x80, 0xab, 0xcd, 0xef, 0xff, 0x12, 0x34, 0x56, 0x78, 0x9a, 0xbc,
    0xde, 0xf0, 0x11, 0x22, 0x33, 0x44, 0x55, 0x66, 0x77, 0x88, 0x99, 0xaa, 0xbb, 0xcc, 0xdd, 0xee,
];

const LOWER: &[u8] = b"00010f107f80abcdefff123456789abcdef0112233445566778899aabbccddee";
const UPPER: &[u8] = b"00010F107F80ABCDEFFF123456789ABCDEF0112233445566778899AABBCCDDEE";

#[test]
fn hexadecimal_digits_have_their_values() {
    assert_eq!(decode_hex(b'0'), Some(0));
    assert_eq!(decode_hex(b'9'), Some(9));
    assert_eq!(decode_hex(b'a'), Some(10));
    assert_eq!(decode_hex(b'f'), Some(15));
    assert_eq!(decode_hex(b'A'), Some(10));
    assert_eq!(decode_hex(b'F'), Some(15));
    for byte in [b'/', b':', b'@', b'G', b'`', b'g', 0, 255] {
        assert_eq!(decode_hex(byte), None);
    }
}

#[test]
fn a_digest_is_accepted_in_either_case() {
    assert_eq!(verify_bundle_sha256(&DIGEST, Some(LOWER)), Ok(()));
    assert_eq!(verify_bundle_sha256(&DIGEST, Some(UPPER)), Ok(()));
}

#[test]
fn any_other_digest_is_refused() {
    assert_eq!(verify_bundle_sha256(&DIGEST, None), Err(()));
    assert_eq!(verify_bundle_sha256(&DIGEST, Some(b"")), Err(()));
    assert_eq!(verify_bundle_sha256(&DIGEST, Some(&LOWER[..63])), Err(()));
    for index in 0..64 {
        let mut text = LOWER.to_vec();
        text[index] = if text[index] == b'0' { b'1' } else { b'0' };
        assert_eq!(verify_bundle_sha256(&DIGEST, Some(&text)), Err(()));
        text[index] = b'x';
        assert_eq!(verify_bundle_sha256(&DIGEST, Some(&text)), Err(()));
    }
    let mut longer = LOWER.to_vec();
    longer.push(b'0');
    assert_eq!(verify_bundle_sha256(&DIGEST, Some(&longer)), Err(()));
}

fn arguments() -> InvocationArguments<'static> {
    InvocationArguments {
        bundle: Some(b"bundle"),
        expected_sha256: Some(LOWER),
        request: Some(b"{}"),
        output: true,
        output_len: true,
        cancellation_context: true,
        is_cancelled: true,
    }
}

fn incomplete() -> Vec<InvocationArguments<'static>> {
    let complete = arguments();
    vec![
        InvocationArguments { bundle: None, ..complete },
        InvocationArguments { request: None, ..complete },
        InvocationArguments { output: false, ..complete },
        InvocationArguments { output_len: false, ..complete },
        InvocationArguments { cancellation_context: false, ..complete },
        InvocationArguments { is_cancelled: false, ..complete },
    ]
}

#[test]
fn every_argument_is_needed() {
    for arguments in incomplete() {
        let mut pending = PendingInvocationResponse::new();
        assert!(matches!(
            nimbus_bun_embed_invoke_program_wrapper_json(&mut pending, arguments),
            Err(300)
        ));
        assert!(matches!(
            nimbus_bun_embed_invoke_program_wrapper_json_with_host_bridge(
                &mut pending,
                arguments,
                true,
                false,
            ),
            Err(300)
        ));
    }
    let mut pending = PendingInvocationResponse::new();
    let begun = nimbus_bun_embed_invoke_program_wrapper_json(&mut pending, arguments());
    match begun {
        Ok(invocation) => {
            assert_eq!(invocation.bundle, b"bundle");
            assert_eq!(invocation.request, b"{}");
            assert_eq!(invocation.expected_sha256, Some(LOWER));
        }
        Err(status) => panic!("refused with {status}"),
    }
}

#[test]
fn a_host_bridge_needs_a_context_and_a_function() {
    let mut pending = PendingInvocationResponse::new();
    let mut begin = |host_context: bool, host_call_json: bool| {
        nimbus_bun_embed_invoke_program_wrapper_json_with_host_bridge(
            &mut pending,
            arguments(),
            host_context,
            host_call_json,
        )
    };
    assert!(matches!(begin(false, false), Err(300)));
    assert!(matches!(begin(false, true), Err(300)));
    assert!(matches!(begin(true, false), Err(308)));
    assert!(begin(true, true).is_ok());
}

#[test]
fn a_new_invocation_forgets_the_response_of_the_last() {
    let mut pending = PendingInvocationResponse::new();
    deliver_response(&mut pending, b"response".to_vec(), 0);
    let missing = InvocationArguments { bundle: None, ..arguments() };
    assert!(nimbus_bun_embed_invoke_program_wrapper_json(&mut pending, missing).is_err());
    assert_eq!(
        nimbus_bun_embed_take_pending_response(&mut pending, true, 100, true).status,
        320
    );
}

#[test]
fn only_the_pinned_bundle_and_a_text_request_are_run() {
    let invocation = Invocation {
        bundle: b"bundle",
        expected_sha256: Some(LOWER),
        request: "{\"text\":\"é\"}".as_bytes(),
    };
    assert_eq!(invocation.check_bundle_and_request(&DIGEST), Ok(()));

    let mut other = DIGEST;
    other[31] = 0;
    assert_eq!(invocation.check_bundle_and_request(&other), Err(313));

    let unpinned = Invocation { expected_sha256: None, ..invocation };
    assert_eq!(unpinned.check_bundle_and_request(&DIGEST), Err(313));

    let malformed = Invocation { request: b"{\"\xff\"}", ..invocation };
    assert_eq!(malformed.check_bundle_and_request(&DIGEST), Err(301));
    assert_eq!(malformed.check_bundle_and_request(&other), Err(313));

    let truncated = Invocation { request: b"\xe2\x82", ..invocation };
    assert_eq!(truncated.check_bundle_and_request(&DIGEST), Err(301));
}

fn pinned() -> Invocation<'static> {
    Invocation {
        bundle: b"bundle",
        expected_sha256: Some(LOWER),
        request: b"{}",
    }
}

#[test]
fn a_refused_invocation_has_no_run() {
    assert_eq!(
        InvocationRun::new(pinned(), &DIGEST),
        Ok(InvocationRun::Start)
    );
    assert_eq!(InvocationRun::new(pinned(), &[0; 32]), Err(313));
    let malformed = Invocation { request: b"\xff", ..pinned() };
    assert_eq!(InvocationRun::new(malformed, &DIGEST), Err(301));
    assert_eq!(InvocationRun::new(malformed, &[0; 32]), Err(313));
}

fn ends(trace: &[InvocationSeen]) -> InvocationRun {
    let mut run = match InvocationRun::new(pinned(), &DIGEST) {
        Ok(run) => run,
        Err(status) => panic!("refused with {status}"),
    };
    for seen in trace {
        run.observe(*seen);
    }
    run
}

#[test]
fn a_cancelled_invocation_does_not_begin() {
    assert_eq!(
        ends(&[InvocationSeen::Token { cancelled: true }]),
        InvocationRun::Finished { status: 314 }
    );
}

#[test]
fn a_program_ends_with_its_own_status() {
    for status in [0, 302, 307] {
        assert_eq!(
            ends(&[
                InvocationSeen::Token { cancelled: false },
                InvocationSeen::Done,
                InvocationSeen::WatcherStarted(true),
                InvocationSeen::Status(status),
                InvocationSeen::WatcherFinished { cancelled: false },
            ]),
            InvocationRun::Finished { status }
        );
    }
}

#[test]
fn a_cancellation_wins_over_the_status() {
    let before = [
        InvocationSeen::Token { cancelled: false },
        InvocationSeen::Done,
        InvocationSeen::WatcherStarted(true),
        InvocationSeen::Status(0),
        InvocationSeen::WatcherFinished { cancelled: true },
    ];
    assert_eq!(
        ends(&before),
        InvocationRun::ClearTermination { status: 314 }
    );
    let mut all = before.to_vec();
    all.push(InvocationSeen::Done);
    assert_eq!(ends(&all), InvocationRun::Finished { status: 314 });
}

#[test]
fn a_watcher_that_fails_shows() {
    assert_eq!(
        ends(&[
            InvocationSeen::Token { cancelled: false },
            InvocationSeen::Done,
            InvocationSeen::WatcherStarted(false),
        ]),
        InvocationRun::Finished { status: 316 }
    );
    assert_eq!(
        ends(&[
            InvocationSeen::Token { cancelled: false },
            InvocationSeen::Done,
            InvocationSeen::WatcherStarted(true),
            InvocationSeen::Status(0),
            InvocationSeen::WatcherLost,
            InvocationSeen::Done,
        ]),
        InvocationRun::Finished { status: 316 }
    );
}

#[test]
fn the_watcher_asks_until_the_invocation_is_over() {
    let mut watcher = InvocationCancellationWatcher::new();
    assert_eq!(watcher.wake(), WatcherAction::AskToken);
    assert_eq!(watcher.answer(false), WatcherAction::Sleep(WATCHER_INTERVAL));
    assert_eq!(WATCHER_INTERVAL, 1_000_000);
    assert_eq!(watcher.wake(), WatcherAction::AskToken);
    watcher.complete();
    assert_eq!(watcher.wake(), WatcherAction::Stop);
    assert_eq!(watcher.finish(Some(false)), Ok(false));
    assert_eq!(watcher.finish(Some(true)), Ok(true));
    assert_eq!(watcher.finish(None), Err(()));
}

#[test]
fn the_watcher_terminates_a_cancelled_invocation() {
    let mut watcher = InvocationCancellationWatcher::new();
    assert_eq!(watcher.answer(true), WatcherAction::Terminate);
    watcher.complete();
    assert_eq!(watcher.finish(Some(false)), Ok(true));
}

#[test]
fn a_cancelled_token_keeps_programs_out() {
    let mut token = ProofCancellationToken::new();
    assert!(!token.is_cancelled());
    assert_eq!(program_entry(&token, 66), Ok(()));
    token.cancel();
    assert!(token.is_cancelled());
    assert_eq!(program_entry(&token, 66), Err(66));
}

#[test]
fn a_response_that_fits_is_delivered_at_once() {
    let mut pending = PendingInvocationResponse::new();
    assert_eq!(
        deliver_response(&mut pending, b"four".to_vec(), 4),
        Delivery {
            status: 0,
            output_len: Some(4),
            output: Some(b"four".to_vec()),
        }
    );
    assert_eq!(
        nimbus_bun_embed_take_pending_response(&mut pending, true, 4, true).status,
        320
    );
}

#[test]
fn a_response_that_does_not_fit_is_taken_once() {
    let mut pending = PendingInvocationResponse::new();
    let too_large = Delivery {
        status: 307,
        output_len: Some(4),
        output: None,
    };
    assert_eq!(deliver_response(&mut pending, b"four".to_vec(), 3), too_large);
    for cap in [0, 3, 1] {
        assert_eq!(
            nimbus_bun_embed_take_pending_response(&mut pending, true, cap, true),
            too_large
        );
    }
    assert_eq!(
        nimbus_bun_embed_take_pending_response(&mut pending, true, 4, true),
        Delivery {
            status: 0,
            output_len: Some(4),
            output: Some(b"four".to_vec()),
        }
    );
    assert_eq!(
        nimbus_bun_embed_take_pending_response(&mut pending, true, 4, true),
        Delivery {
            status: 320,
            output_len: None,
            output: None,
        }
    );
}

#[test]
fn only_a_program_that_succeeds_delivers() {
    let mut pending = PendingInvocationResponse::new();
    deliver_response(&mut pending, b"kept".to_vec(), 0);
    for (status, response) in [
        (302, Some(b"four".to_vec())),
        (302, None),
        (-1, None),
    ] {
        assert_eq!(
            finish_invocation(&mut pending, status, response, 4),
            Delivery {
                status,
                output_len: None,
                output: None,
            }
        );
    }
    assert_eq!(
        nimbus_bun_embed_take_pending_response(&mut pending, true, 4, true).output,
        Some(b"kept".to_vec())
    );
    assert_eq!(
        finish_invocation(&mut pending, 0, Some(b"four".to_vec()), 4),
        Delivery {
            status: 0,
            output_len: Some(4),
            output: Some(b"four".to_vec()),
        }
    );
    assert_eq!(
        finish_invocation(&mut pending, 0, Some(b"four".to_vec()), 3).status,
        307
    );
    assert_eq!(
        nimbus_bun_embed_take_pending_response(&mut pending, true, 4, true).output,
        Some(b"four".to_vec())
    );
}

#[test]
fn a_caller_without_memory_loses_nothing() {
    let mut pending = PendingInvocationResponse::new();
    deliver_response(&mut pending, b"four".to_vec(), 0);
    for (output, output_len) in [(false, true), (true, false), (false, false)] {
        assert_eq!(
            nimbus_bun_embed_take_pending_response(&mut pending, output, 4, output_len),
            Delivery {
                status: 300,
                output_len: None,
                output: None,
            }
        );
    }
    assert_eq!(
        nimbus_bun_embed_take_pending_response(&mut pending, true, 4, true).status,
        0
    );
    deliver_response(&mut pending, b"five!".to_vec(), 0);
    clear_pending_invocation_response(&mut pending);
    assert_eq!(
        nimbus_bun_embed_take_pending_response(&mut pending, true, 9, true).status,
        320
    );
}
