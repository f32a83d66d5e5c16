use paging::args::parse_page_count;
use paging::channel::{handles_to_send, payload, take_single_handle, PAYLOAD_LEN};
use paging::driver::{touch_offsets, TOUCH_START, TOUCH_STRIDE};
use paging::engine::{Action, Engine, FaultEvent, Input, Lifecycle, Notice, Phase};
use paging::error::PagingError;
use paging::fill::{fill_symbol, new_page, prepare_page};
use paging::page::{page_align_down, region_len};

const PAGE: usize = 4096;
const SIGCHLD: u32 = 17;

fn fault(addr: usize) -> Input {
    Input::FaultRead(Some(FaultEvent::Pagefault { addr }))
}

fn ready(fault: bool, lifecycle: bool) -> Input {
    Input::Ready { fault, lifecycle }
}

#[test]
fn align_rounds_down_to_page_start() {
    assert_eq!(page_align_down(0x100f, PAGE), 0x1000);
    assert_eq!(page_align_down(0x40f, PAGE), 0);
    assert_eq!(page_align_down(0x2000, PAGE), 0x2000);
    assert_eq!(page_align_down(0x7f00_0000_1fff, PAGE), 0x7f00_0000_1000);
    assert_eq!(page_align_down(0, PAGE), 0);
}

#[test]
fn region_len_multiplies_and_rejects() {
    assert_eq!(region_len(2, PAGE), Ok(8192));
    assert_eq!(region_len(1, PAGE), Ok(4096));
    assert_eq!(region_len(0, PAGE), Err(PagingError::Argument));
    assert_eq!(region_len(usize::MAX / 2, PAGE), Err(PagingError::Allocation));
}

#[test]
fn symbols_cycle_through_twenty_letters() {
    assert_eq!(fill_symbol(0), b'A');
    assert_eq!(fill_symbol(1), b'B');
    assert_eq!(fill_symbol(19), b'T');
    assert_eq!(fill_symbol(20), b'A');
    assert_eq!(fill_symbol(45), b'F');
    for i in 0..19u64 {
        assert_ne!(fill_symbol(i), fill_symbol(i + 1));
    }
}

#[test]
fn prepared_page_is_uniform() {
    let mut page = new_page(PAGE);
    assert_eq!(page.len(), PAGE);
    assert!(page.iter().all(|&b| b == 0));
    prepare_page(&mut page, 3);
    assert_eq!(page.len(), PAGE);
    assert!(page.iter().all(|&b| b == b'D'));
    prepare_page(&mut page, 23);
    assert!(page.iter().all(|&b| b == b'D'));
    prepare_page(&mut page, 24);
    assert!(page.iter().all(|&b| b == b'E'));
}

#[test]
fn exactly_one_descriptor_is_accepted() {
    let sent = handles_to_send(7);
    assert_eq!(sent, vec![7]);
    assert_eq!(take_single_handle(&sent, sent.len()), Ok(7));
    assert_eq!(take_single_handle(&[9], 1), Ok(9));
}

#[test]
fn other_descriptor_counts_are_refused() {
    assert_eq!(take_single_handle(&[0], 0), Err(PagingError::DescriptorCount(0)));
    assert_eq!(take_single_handle(&[3, 4], 2), Err(PagingError::DescriptorCount(2)));
    assert_eq!(take_single_handle(&[], 1), Err(PagingError::DescriptorCount(0)));
}

#[test]
fn payload_is_zeroed() {
    let p = payload();
    assert_eq!(p.len(), PAYLOAD_LEN);
    assert!(p.iter().all(|&b| b == 0));
}

#[test]
fn touches_start_off_boundary_and_stay_inside() {
    let offs = touch_offsets(TOUCH_START, TOUCH_STRIDE, 2 * PAGE);
    assert_eq!(offs, vec![0xf, 0x40f, 0x80f, 0xc0f, 0x100f, 0x140f, 0x180f, 0x1c0f]);
    assert_eq!(touch_offsets(TOUCH_START, TOUCH_STRIDE, 0), Vec::<usize>::new());
    assert_eq!(touch_offsets(TOUCH_START, TOUCH_STRIDE, 0xf), Vec::<usize>::new());
    assert_eq!(touch_offsets(TOUCH_START, TOUCH_STRIDE, 0x10), vec![0xf]);
    assert_eq!(touch_offsets(0, 1, 3), vec![0, 1, 2]);
}

#[test]
fn touching_every_page_once_gives_one_destination_per_page() {
    let base: usize = 0x7f00_0000_0000;
    let n: usize = 5;
    let mut dests: Vec<usize> = Vec::new();
    for k in 0..n {
        let addr = base + k * PAGE + 0x123;
        let dst = page_align_down(addr, PAGE);
        assert!(!dests.contains(&dst));
        dests.push(dst);
    }
    assert_eq!(dests.len(), n);
    for (k, d) in dests.iter().enumerate() {
        assert_eq!(*d, base + k * PAGE);
        assert!(*d >= base && *d < base + n * PAGE);
    }
}

#[test]
fn engine_runs_two_page_scenario_to_stop() {
    let base: usize = 0x7f00_0000_0000;
    let mut e = Engine::new(PAGE, Some(Lifecycle { signo: SIGCHLD, pid: 42 }));
    let mut installs: Vec<(usize, u8)> = Vec::new();
    let mut resolved: Vec<usize> = Vec::new();
    for off in touch_offsets(TOUCH_START, TOUCH_STRIDE, 2 * PAGE) {
        let addr = base + off;
        if resolved.contains(&page_align_down(addr, PAGE)) {
            continue;
        }
        assert_eq!(e.step(ready(true, false)), Action::ReadFault);
        match e.step(fault(addr)) {
            Action::Install { dst } => {
                assert!(e.page().iter().all(|&b| b == e.page()[0]));
                installs.push((dst, e.page()[0]));
                resolved.push(dst);
            }
            other => panic!("unexpected action {:?}", other),
        }
        assert_eq!(e.step(Input::Installed(PAGE)), Action::Wait);
    }
    assert_eq!(installs, vec![(base, b'A'), (base + PAGE, b'B')]);
    assert_eq!(e.state.faults, 2);
    assert_eq!(e.step(ready(false, true)), Action::ReadNotice);
    assert_eq!(e.step(Input::NoticeRead(Some(Notice { signo: SIGCHLD, pid: 42 }))), Action::Stop);
    assert_eq!(e.state.phase, Phase::Stopped);
    assert!(e.is_done());
    assert_eq!(e.step(ready(true, true)), Action::Stop);
}

#[test]
fn engine_reads_notice_after_pending_fault() {
    let mut e = Engine::new(PAGE, Some(Lifecycle { signo: SIGCHLD, pid: 42 }));
    assert_eq!(e.step(ready(true, true)), Action::ReadFault);
    assert_eq!(e.step(fault(0x100f)), Action::Install { dst: 0x1000 });
    assert_eq!(e.step(Input::Installed(PAGE)), Action::ReadNotice);
    assert_eq!(e.step(Input::NoticeRead(Some(Notice { signo: SIGCHLD, pid: 42 }))), Action::Stop);
}

#[test]
fn engine_ignores_foreign_or_unwatched_notices() {
    let mut e = Engine::new(PAGE, Some(Lifecycle { signo: SIGCHLD, pid: 42 }));
    assert_eq!(e.step(ready(false, true)), Action::ReadNotice);
    assert_eq!(e.step(Input::NoticeRead(Some(Notice { signo: SIGCHLD, pid: 43 }))), Action::Wait);
    assert_eq!(e.state.phase, Phase::Idle);

    let mut plain = Engine::new(PAGE, None);
    assert_eq!(plain.step(ready(false, true)), Action::Wait);
    assert_eq!(plain.step(ready(false, false)), Action::Wait);
    assert!(!plain.is_done());
}

#[test]
fn engine_fails_on_partial_install() {
    let mut e = Engine::new(PAGE, None);
    e.step(ready(true, false));
    e.step(fault(0x10));
    assert_eq!(e.step(Input::Installed(100)), Action::Fail(PagingError::PartialInstall(100)));
    assert_eq!(e.state.phase, Phase::Failed(PagingError::PartialInstall(100)));
    assert!(e.is_done());
    assert_eq!(e.step(ready(true, false)), Action::Fail(PagingError::PartialInstall(100)));
}

#[test]
fn engine_fails_on_spurious_wake() {
    let mut e = Engine::new(PAGE, None);
    e.step(ready(true, false));
    assert_eq!(e.step(Input::FaultRead(None)), Action::Fail(PagingError::SpuriousWake));

    let mut w = Engine::new(PAGE, Some(Lifecycle { signo: SIGCHLD, pid: 1 }));
    w.step(ready(false, true));
    assert_eq!(w.step(Input::NoticeRead(None)), Action::Fail(PagingError::SpuriousWake));
}

#[test]
fn engine_fails_on_other_errors() {
    let mut e = Engine::new(PAGE, None);
    assert_eq!(e.step(Input::WaitFailed), Action::Fail(PagingError::Wait));

    let mut e = Engine::new(PAGE, None);
    e.step(ready(true, false));
    assert_eq!(e.step(Input::FaultRead(Some(FaultEvent::Other))), Action::Fail(PagingError::UnexpectedEvent));

    let mut e = Engine::new(PAGE, None);
    e.step(ready(true, false));
    assert_eq!(e.step(Input::ReadFailed), Action::Fail(PagingError::EventRead));

    let mut e = Engine::new(PAGE, None);
    e.step(ready(true, false));
    e.step(fault(0));
    assert_eq!(e.step(Input::InstallFailed), Action::Fail(PagingError::Install));

    let mut e = Engine::new(PAGE, None);
    assert_eq!(e.step(Input::Installed(PAGE)), Action::Fail(PagingError::OutOfOrder));
}

#[test]
fn page_count_argument_is_checked() {
    assert_eq!(parse_page_count(b"2"), Ok(2));
    assert_eq!(parse_page_count(b"0042"), Ok(42));
    assert_eq!(parse_page_count(b""), Err(PagingError::Argument));
    assert_eq!(parse_page_count(b"0"), Err(PagingError::Argument));
    assert_eq!(parse_page_count(b"-1"), Err(PagingError::Argument));
    assert_eq!(parse_page_count(b"3x"), Err(PagingError::Argument));
    assert_eq!(parse_page_count(usize::MAX.to_string().as_bytes()), Ok(usize::MAX));
    assert_eq!(parse_page_count(b"99999999999999999999999"), Err(PagingError::Argument));
}

#[test]
fn error_names_follow_taxonomy() {
    assert_eq!(PagingError::Bind.name(), "BindError");
    assert_eq!(PagingError::DescriptorCount(2).name(), "DescriptorCountError");
    assert_eq!(PagingError::PartialInstall(1).name(), "PartialInstallError");
}

#[test]
fn consecutive_faults_get_cycling_contents() {
    let mut e = Engine::new(PAGE, None);
    for i in 0..45usize {
        assert_eq!(e.step(ready(true, false)), Action::ReadFault);
        let addr = i * PAGE + 0xf;
        assert_eq!(e.step(fault(addr)), Action::Install { dst: i * PAGE });
        let expected = b'A' + (i % 20) as u8;
        assert_eq!(e.page().len(), PAGE);
        assert!(e.page().iter().all(|&b| b == expected));
        assert_eq!(e.step(Input::Installed(PAGE)), Action::Wait);
    }
    assert_eq!(e.state.faults, 45);
}

#[test]
fn mask_and_rounding_agree() {
    for addr in [0usize, 1, 0xfff, 0x1000, 0x100f, 0x40f, 0x7fff_ffff_f00f] {
        assert_eq!(addr & !(PAGE - 1), page_align_down(addr, PAGE));
    }
}
