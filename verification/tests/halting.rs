use wrapping_adder::fault::Core;

#[test]
fn fault_halts_a_running_core() {
    assert_eq!(wrapping_adder::fault::panic(Core::Running), Core::Halted);
}

#[test]
fn halted_core_stays_halted() {
    assert_eq!(wrapping_adder::fault::panic(Core::Halted), Core::Halted);
}

#[test]
fn no_number_of_rounds_brings_the_core_back() {
    let mut core: Core = wrapping_adder::fault::panic(Core::Running);
    for _ in 0..1000 {
        core = wrapping_adder::fault::panic(core);
        assert_eq!(core, Core::Halted);
        assert_ne!(core, Core::Running);
    }
}
