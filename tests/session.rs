use cc23x0r5_flash::rom::{
    flash_bank_erase, program_call, sector_erase_call, RomCall, EMPTY_VALUE, FLASH_ADDRESS,
    FLASH_API_KEY, FLASH_SIZE, PAGE_SIZE, SECTOR_ADDRESS, SECTOR_SIZE,
};
use cc23x0r5_flash::session::{Algorithm, Effect, MachineState, Phase};
use cc23x0r5_flash::status::{FlashError, RomStatus, FAPI_STATUS_ADDRESS_ERROR, FAPI_STATUS_FSM_ERROR};

fn before() -> MachineState {
    MachineState { cache_ctrl: 0x0000_0003, interrupts_enabled: true }
}

#[test]
fn geometry_constants() {
    assert_eq!(FLASH_ADDRESS, 0x0);
    assert_eq!(FLASH_SIZE, 0x5800);
    assert_eq!(PAGE_SIZE, 0x800);
    assert_eq!(SECTOR_SIZE, 0x800);
    assert_eq!(SECTOR_ADDRESS, 0x0);
    assert_eq!(EMPTY_VALUE, 0xFF);
}

#[test]
fn calls_carry_the_key() {
    assert_eq!(
        sector_erase_call(0x800),
        RomCall::SectorErase { key: 0xB7E3_A08F, address: 0x800 }
    );
    let data = [0x5Au8; 32];
    assert_eq!(
        program_call(&data, 0x1000),
        RomCall::Program { key: FLASH_API_KEY, address: 0x1000, length: 32 }
    );
}

#[test]
fn bank_erase_reports_success() {
    assert_eq!(flash_bank_erase(), 0);
}

#[test]
fn start_disables_cache_and_interrupts() {
    let mut m = before();
    let (session, effects) = Algorithm::new(m.cache_ctrl);
    assert_eq!(effects, [Effect::WriteCacheCtrl(0), Effect::DisableInterrupts]);
    assert_eq!(session.phase(), Phase::Active);
    m.apply_all(&effects);
    assert_eq!(m, MachineState { cache_ctrl: 0, interrupts_enabled: false });
}

#[test]
fn session_round_trip_restores_machine() {
    let mut m = before();
    let (mut session, effects) = Algorithm::new(m.cache_ctrl);
    m.apply_all(&effects);
    assert_eq!(session.erase_all(), Ok(()));
    let call = session.erase_sector(FLASH_ADDRESS);
    assert_eq!(call, RomCall::SectorErase { key: FLASH_API_KEY, address: FLASH_ADDRESS });
    assert_eq!(session.phase(), Phase::Awaiting(call));
    assert!(!m.interrupts_enabled);
    assert_eq!(session.complete(0), Ok(()));
    let data = [0x12u8; 32];
    let call = session.program_page(FLASH_ADDRESS, &data);
    assert_eq!(call, RomCall::Program { key: FLASH_API_KEY, address: FLASH_ADDRESS, length: 32 });
    assert!(!m.interrupts_enabled);
    assert_eq!(session.complete(0), Ok(()));
    let effects = session.end();
    assert_eq!(effects, [Effect::WriteCacheCtrl(0x3), Effect::EnableInterrupts]);
    assert_eq!(session.phase(), Phase::TornDown);
    m.apply_all(&effects);
    assert_eq!(m, before());
}

#[test]
fn failure_mid_session_still_restores_machine() {
    let mut m = before();
    let (mut session, effects) = Algorithm::new(m.cache_ctrl);
    m.apply_all(&effects);
    session.erase_sector(SECTOR_ADDRESS);
    assert_eq!(
        session.complete(FAPI_STATUS_FSM_ERROR),
        Err(FlashError::Rom(RomStatus::FsmError))
    );
    let effects = session.end();
    m.apply_all(&effects);
    assert_eq!(m, before());
}

#[test]
fn out_of_range_sector_surfaces_decoded_error() {
    let (mut session, _) = Algorithm::new(0);
    let call = session.erase_sector(FLASH_ADDRESS + FLASH_SIZE);
    assert_eq!(call, RomCall::SectorErase { key: FLASH_API_KEY, address: 0x5800 });
    assert_eq!(
        session.complete(FAPI_STATUS_ADDRESS_ERROR),
        Err(FlashError::Rom(RomStatus::AddressError))
    );
    assert_eq!(session.phase(), Phase::Active);
}

#[test]
fn unknown_status_mid_session_is_an_error() {
    let (mut session, _) = Algorithm::new(0);
    session.program_page(0x800, &[1, 2, 3, 4]);
    assert_eq!(session.complete(0xFFFF_FFFF), Err(FlashError::UnknownRomStatus(0xFFFF_FFFF)));
}

#[test]
fn end_while_call_in_flight_restores_machine() {
    let mut m = MachineState { cache_ctrl: 0xA5, interrupts_enabled: true };
    let (mut session, effects) = Algorithm::new(m.cache_ctrl);
    m.apply_all(&effects);
    session.erase_sector(0x800);
    let effects = session.end();
    m.apply_all(&effects);
    assert_eq!(m, MachineState { cache_ctrl: 0xA5, interrupts_enabled: true });
}

#[test]
fn machine_state_applies_each_effect() {
    let mut m = before();
    m.apply(Effect::DisableInterrupts);
    assert!(!m.interrupts_enabled);
    m.apply(Effect::WriteCacheCtrl(9));
    assert_eq!(m.cache_ctrl, 9);
    m.apply(Effect::EnableInterrupts);
    assert_eq!(m, MachineState { cache_ctrl: 9, interrupts_enabled: true });
}
