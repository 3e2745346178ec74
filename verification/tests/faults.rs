use tracer::elf::MalformedBinary;
use tracer::error::{describe_stage, Fault, Stage};
use tracer::event::DecodeFault;
use tracer::probe::Target;
use tracer::resolve::ResolveError;

fn every_fault() -> Vec<Fault> {
    vec![
        Fault::MalformedBinary,
        Fault::NoRuntimeDependency,
        Fault::RuntimeLibraryNotFound,
        Fault::ProgramOpenFailed,
        Fault::ProgramLoadFailed,
        Fault::ProbeAttachFailed {
            program: "uprobe_epoll_wait".to_string(),
            target: Target::Runtime,
            symbol: "epoll_wait".to_string(),
        },
        Fault::Decode(DecodeFault { channel: 1, expected: 16, actual: 3 }),
        Fault::PollError,
    ]
}

#[test]
fn each_fault_has_its_stage() {
    let stages: Vec<Stage> = every_fault().iter().map(|f| f.stage()).collect();
    assert_eq!(
        stages,
        vec![
            Stage::Analysis,
            Stage::Resolution,
            Stage::Resolution,
            Stage::Open,
            Stage::Load,
            Stage::Attach,
            Stage::Decode,
            Stage::Poll,
        ]
    );
}

#[test]
fn only_a_decode_fault_is_recoverable() {
    let fatal: Vec<bool> = every_fault().iter().map(|f| f.is_fatal()).collect();
    assert_eq!(fatal, vec![true, true, true, true, true, true, false, true]);
}

#[test]
fn each_fatal_fault_has_its_own_nonzero_status() {
    let status: Vec<u8> = every_fault().iter().map(|f| f.exit_status()).collect();
    assert_eq!(status, vec![2, 3, 4, 5, 6, 7, 0, 8]);
}

#[test]
fn faults_of_earlier_stages_convert() {
    assert_eq!(Fault::from_analysis(MalformedBinary), Fault::MalformedBinary);
    assert_eq!(
        Fault::from_resolution(ResolveError::NoRuntimeDependency),
        Fault::NoRuntimeDependency
    );
    assert_eq!(
        Fault::from_resolution(ResolveError::RuntimeLibraryNotFound),
        Fault::RuntimeLibraryNotFound
    );
}

#[test]
fn stages_have_names() {
    assert_eq!(describe_stage(Stage::Analysis), "binary analysis");
    assert_eq!(describe_stage(Stage::Resolution), "runtime library resolution");
    assert_eq!(describe_stage(Stage::Open), "program open");
    assert_eq!(describe_stage(Stage::Load), "program load");
    assert_eq!(describe_stage(Stage::Attach), "probe attachment");
    assert_eq!(describe_stage(Stage::Poll), "polling");
    assert_eq!(describe_stage(Stage::Decode), "sample decoding");
}
