use tls_interop::catalogue::{catalogue, ScenarioSpec, PORT_RANGE_END, PORT_RANGE_START};
use tls_interop::outcome::{classify, marker, Job, JobAction, JobEvent, JobPhase, TestResult};
use tls_interop::results::{row_before, ResultRow, ResultTable};
use tls_interop::scenario::{Client, InteropTest, Server};
use tls_interop::scheduler::{concurrency_limit, Scheduler};

fn enabled_tests() -> Vec<InteropTest> {
    vec![
        InteropTest::Handshake,
        InteropTest::Greeting,
        InteropTest::MTLSRequestResponse,
        InteropTest::LargeDataDownload,
        InteropTest::LargeDataDownloadWithFrequentKeyUpdates,
    ]
}

fn all_servers() -> Vec<Server> {
    vec![Server::S2nTls, Server::OpenSSL]
}

fn all_clients() -> Vec<Client> {
    vec![Client::S2nTls, Client::Rustls, Client::Java, Client::Go]
}

#[test]
fn names_and_paths() {
    assert_eq!(InteropTest::Handshake.name(), "handshake");
    assert_eq!(InteropTest::MTLSRequestResponse.name(), "mtls_request_response");
    assert_eq!(InteropTest::SessionResumption.name(), "session_resumption");
    assert_eq!(Server::OpenSSL.executable_path(), "tls-shim/target/release/openssl_server");
    assert_eq!(Client::Go.executable_path(), "go/client");
    assert_eq!(Client::Java.executable_path(), "java");
    assert_eq!(Client::Java.configure(), vec!["-cp", "java", "SSLSocketClient"]);
    assert!(Client::Rustls.configure().is_empty());
    assert_eq!(InteropTest::from_rank(4), Some(InteropTest::LargeDataDownloadWithFrequentKeyUpdates));
    assert_eq!(InteropTest::from_rank(6), None);
}

#[test]
fn catalogue_is_cross_product() {
    let c = catalogue(&enabled_tests(), &all_servers(), &all_clients(), PORT_RANGE_START, PORT_RANGE_END)
        .unwrap();
    assert_eq!(c.len(), 40);
    assert_eq!(
        c[0],
        ScenarioSpec { test_case: InteropTest::Handshake, server: Server::S2nTls, client: Client::S2nTls, port: 9001 }
    );
    assert_eq!(
        c[13],
        ScenarioSpec { test_case: InteropTest::Greeting, server: Server::OpenSSL, client: Client::Rustls, port: 9014 }
    );
    assert_eq!(c[39].port, 9040);
    assert_eq!(c[39].test_case, InteropTest::LargeDataDownloadWithFrequentKeyUpdates);
    for i in 0..c.len() {
        for j in (i + 1)..c.len() {
            assert!((c[i].test_case, c[i].server, c[i].client) != (c[j].test_case, c[j].server, c[j].client));
        }
    }
}

#[test]
fn catalogue_needs_a_port_per_scenario() {
    assert!(catalogue(&enabled_tests(), &all_servers(), &all_clients(), 9001, 9039).is_none());
    assert_eq!(catalogue(&enabled_tests(), &all_servers(), &all_clients(), 9001, 9040).unwrap().len(), 40);
    assert_eq!(catalogue(&Vec::new(), &all_servers(), &all_clients(), 9001, 9000).unwrap().len(), 0);
    assert!(catalogue(&enabled_tests(), &all_servers(), &all_clients(), 9001, 9000).is_none());
    let last = catalogue(&vec![InteropTest::Greeting], &vec![Server::S2nTls], &vec![Client::Go], 65535, 65535).unwrap();
    assert_eq!(last[0].port, 65535);
}

#[test]
fn classify_all_combinations() {
    assert_eq!(classify(0, 0), TestResult::Success);
    assert_eq!(classify(127, 0), TestResult::Unimplemented);
    assert_eq!(classify(0, 127), TestResult::Unimplemented);
    assert_eq!(classify(127, 1), TestResult::Unimplemented);
    assert_eq!(classify(1, 0), TestResult::Failure);
    assert_eq!(classify(0, 1), TestResult::Failure);
    assert_eq!(classify(0, -1), TestResult::Failure);
    assert_eq!(classify(101, 0), TestResult::Failure);
    assert_ne!(marker(TestResult::Failure), marker(TestResult::Unimplemented));
}

#[test]
fn job_timeout_kills_and_fails() {
    let (mut job, first) = Job::new();
    assert_eq!(first, JobAction::SpawnServer);
    assert_eq!(job.step(JobEvent::Spawned), JobAction::WaitGrace);
    assert_eq!(job.step(JobEvent::GraceElapsed), JobAction::SpawnClient);
    assert_eq!(job.step(JobEvent::Spawned), JobAction::AwaitAll);
    assert_eq!(job.step(JobEvent::TimedOut), JobAction::Kill { server: true, client: true });
    assert_eq!(job.step(JobEvent::GraceElapsed), JobAction::Ignore);
    assert_eq!(job.step(JobEvent::Killed), JobAction::Report(TestResult::Failure));
    assert_eq!(job.phase, JobPhase::Done);
    assert!(!job.server_live && !job.client_live);
}

#[test]
fn job_reports_exit_statuses() {
    let (mut job, _) = Job::new();
    job.step(JobEvent::Spawned);
    job.step(JobEvent::GraceElapsed);
    job.step(JobEvent::Spawned);
    let a = job.step(JobEvent::Finished { client_code: Some(0), server_code: Some(127) });
    assert_eq!(a, JobAction::Report(TestResult::Unimplemented));

    let (mut job, _) = Job::new();
    job.step(JobEvent::Spawned);
    job.step(JobEvent::GraceElapsed);
    job.step(JobEvent::Spawned);
    let a = job.step(JobEvent::Finished { client_code: None, server_code: Some(0) });
    assert_eq!(a, JobAction::Report(TestResult::Failure));
}

#[test]
fn job_spawn_failures() {
    let (mut job, _) = Job::new();
    assert_eq!(job.step(JobEvent::SpawnFailed), JobAction::Report(TestResult::Failure));

    let (mut job, _) = Job::new();
    job.step(JobEvent::Spawned);
    job.step(JobEvent::GraceElapsed);
    assert_eq!(job.step(JobEvent::SpawnFailed), JobAction::Kill { server: true, client: false });
    assert_eq!(job.step(JobEvent::Killed), JobAction::Report(TestResult::Failure));
}

#[test]
fn concurrency_is_half_the_parallelism() {
    assert_eq!(concurrency_limit(8), 4);
    assert_eq!(concurrency_limit(7), 3);
    assert_eq!(concurrency_limit(1), 1);
    assert_eq!(concurrency_limit(0), 1);
}

#[test]
fn scheduler_runs_each_once_within_limit() {
    let mut s = Scheduler::new(5, 2);
    assert_eq!(s.next_start(), Some(0));
    assert_eq!(s.next_start(), Some(1));
    assert_eq!(s.next_start(), None);
    assert!(s.complete(1));
    assert!(!s.complete(1));
    assert!(!s.complete(3));
    assert_eq!(s.next_start(), Some(2));
    assert_eq!(s.in_flight.len(), 2);
    assert!(s.complete(0));
    assert!(s.complete(2));
    assert_eq!(s.next_start(), Some(3));
    assert_eq!(s.next_start(), Some(4));
    assert!(!s.is_finished());
    assert!(s.complete(4));
    assert!(s.complete(3));
    assert_eq!(s.next_start(), None);
    assert!(s.is_finished());
    assert!(s.done.iter().all(|d| *d));
}

#[test]
fn table_sorted_whatever_the_arrival_order() {
    let c = catalogue(&enabled_tests(), &all_servers(), &all_clients(), PORT_RANGE_START, PORT_RANGE_END)
        .unwrap();
    let mut order: Vec<usize> = (0..c.len()).collect();
    // a fixed shuffle: multiply by a unit modulo 40
    for (i, slot) in order.iter_mut().enumerate() {
        *slot = (i * 17 + 5) % 40;
    }
    let mut table = ResultTable::new();
    for &k in order.iter() {
        let spec = c[k];
        table.insert(ResultRow {
            test_case: spec.test_case,
            server: spec.server,
            client: spec.client,
            result: if k % 3 == 0 { TestResult::Success } else { TestResult::Failure },
        });
    }
    assert_eq!(table.rows.len(), 40);
    for (i, row) in table.rows.iter().enumerate() {
        assert_eq!((row.test_case, row.server, row.client), (c[i].test_case, c[i].server, c[i].client));
    }
    for w in table.rows.windows(2) {
        assert!(row_before(&w[0], &w[1]));
    }
}

#[test]
fn table_insert_positions() {
    let mut table = ResultTable::new();
    let row = |t, s, c| ResultRow { test_case: t, server: s, client: c, result: TestResult::Success };
    assert_eq!(table.insert(row(InteropTest::Greeting, Server::S2nTls, Client::Go)), 0);
    assert_eq!(table.insert(row(InteropTest::Handshake, Server::OpenSSL, Client::S2nTls)), 0);
    assert_eq!(table.insert(row(InteropTest::Greeting, Server::S2nTls, Client::Java)), 1);
    assert_eq!(table.insert(row(InteropTest::SessionResumption, Server::S2nTls, Client::S2nTls)), 3);
    assert_eq!(table.rows[2].client, Client::Go);
}
