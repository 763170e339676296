use windows_kernel::mutex::auto_lock::AutoLock;
use windows_kernel::mutex::fast_mutex::FastMutex;
use windows_kernel::mutex::locker::Locker;

#[test]
fn fast_mutex_lock_cycle() {
    let mut m = FastMutex::new();
    assert_eq!(m.state().Count, 0);
    assert_eq!(m.state().Contention, 9);
    m.Init();
    assert_eq!(m.state().Count, 1);
    assert_eq!(m.state().Contention, 0);
    assert_eq!(m.state().Owner, 0);
    assert_eq!(m.state().OldIrql, 0);
    assert_eq!(m.state().Event.Header.Type, 1);
    assert_eq!(m.state().Event.Header.SignalState, 0);
    m.Lock();
    assert_eq!(m.state().Count, 0);
    m.Unlock();
    assert_eq!(m.state().Count, 1);
}

#[test]
fn auto_lock_holds_until_release() {
    let mut m = FastMutex::new();
    m.Init();
    let before = m.state();
    let guard = AutoLock::new(&mut m);
    assert_eq!(guard.l.state().Count, 0);
    guard.release();
    assert_eq!(m.state().Count, before.Count);
    assert_eq!(m.state().Owner, 0);
    assert_eq!(m.state().Contention, before.Contention);
    assert_eq!(m.state().Event, before.Event);
    let again = AutoLock::new(&mut m);
    assert_eq!(again.l.state().Count, 0);
    again.release();
    assert_eq!(m.state().Count, 1);
}
