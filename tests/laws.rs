use std::cell::Cell;

use cpupower::{status_result, Cpu, CpuPowerError, Frequency, Policy, PolicyRecord, Stat};
use cpupower::{
    AffectedCpus, AvailableFrequencies, AvailableGovernors, Extract, Extraction, HeadStep,
    NodeStep, RelatedCpus, Stats,
};

/// What a driver of a list query saw: how many nodes it read and how many
/// times it released the list.
struct Run<R> {
    result: Result<Vec<R>, CpuPowerError>,
    reads: usize,
    releases: usize,
}

fn run<S: Extract>(
    query: Extraction<S>,
    head: bool,
    errno: i32,
    nodes: Vec<S::Source>,
) -> Run<S::Element> {
    let mut reads = 0;
    let mut releases = 0;
    let mut nodes = nodes.into_iter();
    let result = match query.on_head(head, errno) {
        HeadStep::Finish(r) => r,
        HeadStep::Walk(mut walk) => loop {
            let node = nodes.next();
            if node.is_some() {
                reads += 1;
            }
            match walk.on_node(node) {
                NodeStep::ReadNode(w) => walk = w,
                NodeStep::Release(r) => {
                    releases += 1;
                    break r;
                }
            }
        },
    };
    Run { result, reads, releases }
}

fn governor(name: &str) -> (Option<Vec<u8>>, i32) {
    (Some(name.as_bytes().to_vec()), 0)
}

fn enumerate(present: &dyn Fn(u32) -> bool) -> Vec<u32> {
    let mut cpus = Cpu::get_all();
    let mut ids = vec![];
    while let Some(id) = cpus.probe() {
        if let Some(cpu) = cpus.next(present(id)) {
            ids.push(cpu.get_id());
        }
    }
    ids
}

#[test]
fn get_all_stops_at_the_first_gap() {
    assert_eq!(enumerate(&|id| id < 4), vec![0, 1, 2, 3]);
    assert_eq!(enumerate(&|id| id == 0 || id == 1 || id == 3), vec![0, 1]);
    assert_eq!(enumerate(&|_| false), Vec::<u32>::new());
}

#[test]
fn iterator_stays_ended_after_a_gap() {
    let mut cpus = Cpu::get_all();
    assert_eq!(cpus.probe(), Some(0));
    assert!(cpus.next(false).is_none());
    assert_eq!(cpus.probe(), None);
    assert!(cpus.next(true).is_none());
}

#[test]
fn extract_releases_once_on_a_failing_third_node() {
    let nodes = vec![
        governor("performance"),
        governor("powersave"),
        (Some(vec![0xc3, 0x28]), 0),
        governor("ondemand"),
        governor("schedutil"),
    ];
    let r = run(Cpu::new(0).get_available_governors(), true, 0, nodes);
    assert_eq!(r.result, Err(CpuPowerError::Utf8Error));
    assert_eq!(r.releases, 1);
    assert_eq!(r.reads, 3);
}

#[test]
fn extract_releases_once_on_a_null_governor_text() {
    let nodes = vec![governor("performance"), (None, 12)];
    let r = run(Cpu::new(0).get_available_governors(), true, 0, nodes);
    assert_eq!(r.result, Err(CpuPowerError::SystemError(12)));
    assert_eq!(r.releases, 1);
    assert_eq!(r.reads, 2);
}

#[test]
fn extract_without_head_releases_nothing() {
    let r = run(Cpu::new(1).get_available_frequencies(), false, 2, vec![100, 200]);
    assert_eq!(r.result, Err(CpuPowerError::SystemError(2)));
    assert_eq!(r.releases, 0);
    assert_eq!(r.reads, 0);
}

#[test]
fn extract_of_an_empty_chain_is_empty() {
    let r = run(Cpu::new(0).get_stats(), true, 0, vec![]);
    assert_eq!(r.result, Ok(vec![]));
    assert_eq!(r.releases, 1);
}

#[test]
fn extract_keeps_chain_order() {
    let r = run(Cpu::new(0).get_available_frequencies(), true, 0, vec![2_400_000, 800_000, 1_600_000]);
    assert_eq!(r.result, Ok(vec![2_400_000, 800_000, 1_600_000]));
    assert_eq!(r.releases, 1);
    assert_eq!(r.reads, 3);

    let names = vec![governor("ondemand"), governor("performance"), governor("powersave")];
    let r = run(Cpu::new(0).get_available_governors(), true, 0, names);
    assert_eq!(
        r.result,
        Ok(vec!["ondemand".to_string(), "performance".to_string(), "powersave".to_string()])
    );
}

#[test]
fn governor_names_are_decoded_as_utf8() {
    let r = run(AvailableGovernors::extract(0), true, 0, vec![(Some(vec![0x63, 0xc3, 0xa9]), 0)]);
    assert_eq!(r.result, Ok(vec!["c\u{e9}".to_string()]));
}

#[test]
fn affected_and_related_cpus_are_cpu_handles() {
    let r = run(Cpu::new(0).get_affected_cpus(), true, 0, vec![0, 2]);
    assert_eq!(r.result, Ok(vec![Cpu::new(0), Cpu::new(2)]));
    let r = run(Cpu::new(5).get_related_cpus(), true, 0, vec![5, 4, 7]);
    let ids: Vec<u32> = r.result.unwrap().iter().map(|c| c.get_id()).collect();
    assert_eq!(ids, vec![5, 4, 7]);
    assert_eq!(AffectedCpus::extract(6).get_cpu(), 6);
    assert_eq!(RelatedCpus::extract(7).get_cpu(), 7);
}

#[test]
fn stats_copy_each_node() {
    let r = run(Stats::extract(0), true, 0, vec![(800_000, 120), (2_400_000, 7)]);
    assert_eq!(
        r.result,
        Ok(vec![
            Stat { freq: 800_000, time_in_state: 120 },
            Stat { freq: 2_400_000, time_in_state: 7 },
        ])
    );
    assert_eq!(AvailableFrequencies::get_value(5), Ok(5));
}

#[test]
fn get_freq_prefers_the_hardware_reading() {
    let asked = Cell::new(false);
    let kernel = || {
        asked.set(true);
        Cpu::get_freq_kernel(1_000_000, 0)
    };
    let r = Cpu::get_freq(Cpu::get_freq_hardware(2_000_000, 0), kernel);
    assert_eq!(r, Ok(2_000_000));
    assert!(!asked.get());
}

#[test]
fn get_freq_falls_back_to_the_kernel() {
    let asked = Cell::new(false);
    let kernel = || {
        asked.set(true);
        Cpu::get_freq_kernel(1_000_000, 0)
    };
    let r = Cpu::get_freq(Cpu::get_freq_hardware(0, 13), kernel);
    assert_eq!(r, Ok(1_000_000));
    assert!(asked.get());

    let r = Cpu::get_freq(Cpu::get_freq_hardware(0, 13), || Cpu::get_freq_kernel(0, 5));
    assert_eq!(r, Err(CpuPowerError::SystemError(5)));
}

#[test]
fn get_transitions_tells_zero_from_failure() {
    assert_eq!(Cpu::get_transitions(0, 0), Ok(0));
    assert_eq!(Cpu::get_transitions(0, 5), Err(CpuPowerError::SystemError(5)));
    assert_eq!(Cpu::get_transitions(42, 5), Ok(42));
}

#[test]
fn modify_policy_governor_rejects_a_terminator() {
    let calls = Cell::new(0);
    let native_call = |_name: Vec<u8>| {
        calls.set(calls.get() + 1);
        (0, 0)
    };
    let outcome = match Cpu::modify_policy_governor("sched\0save") {
        Ok(name) => {
            let (status, errno) = native_call(name);
            status_result(status, errno)
        }
        Err(e) => Err(e),
    };
    assert_eq!(outcome, Err(CpuPowerError::NulError { position: 5 }));
    assert_eq!(calls.get(), 0);
}

#[test]
fn modify_policy_governor_hands_over_the_bytes() {
    assert_eq!(Cpu::modify_policy_governor("powersave"), Ok(b"powersave".to_vec()));
    assert_eq!(Cpu::modify_policy_governor(""), Ok(vec![]));
    assert_eq!(Cpu::modify_policy_governor("\0"), Err(CpuPowerError::NulError { position: 0 }));
}

#[test]
fn policy_round_trip_through_an_echoing_library() {
    let policy = Policy::new(0, 1000000, "powersave");
    let record = Cpu::set_policy(&policy).unwrap();
    assert_eq!(record.governor, Some(b"powersave".to_vec()));
    let echoed = PolicyRecord { min: record.min, max: record.max, governor: record.governor };
    let read = Cpu::get_policy(Some(echoed), 0).unwrap();
    assert_eq!(read, policy);
    assert_eq!(read.min, 0);
    assert_eq!(read.max, 1000000);
    assert_eq!(read.governor, "powersave");
}

#[test]
fn set_policy_rejects_a_terminator() {
    let policy = Policy::new(1, 2, "power\0save");
    assert_eq!(Cpu::set_policy(&policy).unwrap_err(), CpuPowerError::NulError { position: 5 });
}

#[test]
fn get_policy_with_a_null_governor_is_a_system_error() {
    let record = PolicyRecord { min: 1, max: 2, governor: None };
    assert_eq!(Cpu::get_policy(Some(record), 22).unwrap_err(), CpuPowerError::SystemError(22));
}

#[test]
fn get_driver_decodes_its_name() {
    assert_eq!(Cpu::get_driver(Some(b"acpi-cpufreq".to_vec()), 0), Ok("acpi-cpufreq".to_string()));
    assert_eq!(Cpu::get_driver(Some(vec![0x70, 0xc3, 0xa9]), 0), Ok("p\u{e9}".to_string()));
    assert_eq!(Cpu::get_driver(Some(vec![0xff]), 0), Err(CpuPowerError::FromUtf8Error));
    assert_eq!(Cpu::get_driver(None, 19), Err(CpuPowerError::SystemError(19)));
}

#[test]
fn scalar_readings_use_zero_for_failure() {
    assert_eq!(Cpu::get_freq_kernel(0, 19), Err(CpuPowerError::SystemError(19)));
    assert_eq!(Cpu::get_transition_latency(0, 1), Err(CpuPowerError::SystemError(1)));
    assert_eq!(Cpu::get_transition_latency(10_000, 1), Ok(10_000));
    assert_eq!(Cpu::get_hardware_limits(-1, 1, 2, 16), Err(CpuPowerError::SystemError(16)));
    assert_eq!(Cpu::get_hardware_limits(0, 1, 2, 16), Ok((1, 2)));
    assert_eq!(Cpu::modify_policy_max(0, 3), Ok(()));
    assert_eq!(Cpu::modify_policy_min(-22, 22), Err(CpuPowerError::SystemError(22)));
    assert!(Cpu::cpu_exists(0));
    assert!(!Cpu::cpu_exists(-19));
    let cpu = Cpu::new(4);
    assert_eq!(cpu.set_freq(0, 0).unwrap().get_id(), 4);
}

#[test]
fn error_messages() {
    assert_eq!(CpuPowerError::Unknown.to_string(), "Unknown error");
    assert_eq!(CpuPowerError::CpuNotFound { id: 12 }.to_string(), "Cpu 12 not found");
    assert_eq!(CpuPowerError::SystemError(13).to_string(), "System error: errno 13");
    assert_eq!(CpuPowerError::SystemError(-7).to_string(), "System error: errno -7");
    assert_eq!(
        CpuPowerError::FrequencyNotSet { id: 1, requested: 800000, actual: 1600000, errno: 0 }
            .to_string(),
        "Frequency wasn't set for cpu: 1. Requested: 800000. Actual: 1600000. Errno: 0"
    );
    assert_eq!(
        CpuPowerError::NulError { position: 5 }.to_string(),
        "Null pointer passed: nul byte found in provided data at position: 5"
    );
    assert_eq!(
        CpuPowerError::Utf8Error.to_string(),
        "UTF-8 conversion error: invalid UTF-8 text"
    );
    let wrapped = CpuPowerError::CantGetPolicy {
        id: 3,
        parent: Box::new(CpuPowerError::SystemError(13)),
    };
    assert_eq!(wrapped.to_string(), "Can't get policy for cpu: 3. System error: errno 13");
    assert_eq!(wrapped.cause(), Some(&CpuPowerError::SystemError(13)));
    let wrapped = CpuPowerError::CantSetPolicy { id: 0, parent: Box::new(CpuPowerError::FromUtf8Error) };
    assert_eq!(wrapped.cause(), Some(&CpuPowerError::FromUtf8Error));
    assert_eq!(wrapped.description(), "Can't set policy");
    assert_eq!(CpuPowerError::SystemError(1).cause(), None);
    assert_eq!(CpuPowerError::SystemError(1).description(), "System error represented by errno value");
}

#[test]
fn text_forms() {
    let policy = Policy::new(800000, 2400000, "ondemand");
    assert_eq!(policy.to_string(), "Policy{min: 800000, max: 2400000, governor: ondemand}");
    let stat = Stat { freq: 1600000, time_in_state: 0 };
    assert_eq!(stat.to_string(), "Stat{freq: 1600000, time_in_state: 0}");
    let cpu = Cpu::new(2);
    assert_eq!(cpu.to_string(&Ok(1200000)), "Cpu{id: 2, frequency: 1200000}");
    assert_eq!(cpu.to_string(&Err(CpuPowerError::SystemError(13))), "Cpu{id: 2, frequency: Unknown}");
    let largest: Frequency = u64::MAX;
    assert_eq!(
        Stat { freq: largest, time_in_state: 10 }.to_string(),
        "Stat{freq: 18446744073709551615, time_in_state: 10}"
    );
}

#[test]
fn policies_compare_by_content() {
    assert_eq!(Policy::new(1, 2, "a"), Policy::new(1, 2, "a"));
    assert_ne!(Policy::new(1, 2, "a"), Policy::new(1, 2, "b"));
    assert_ne!(Policy::new(1, 3, "a"), Policy::new(1, 2, "a"));
}
