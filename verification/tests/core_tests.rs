use tinic::av_info::{
    check_context_support, render_buffer_config, AvInfo, GameGeometry, GraphicApi, HwContextType,
    PixelFormat, DEPTH24_STENCIL8, DEPTH_ATTACHMENT, DEPTH_COMPONENT24, DEPTH_STENCIL_ATTACHMENT,
};
use tinic::environment::{
    classify, EnvCommand, EnvReply, EnvRequest, RETRO_ENVIRONMENT_GET_INPUT_BITMASKS,
    RETRO_ENVIRONMENT_GET_VFS_INTERFACE, RETRO_ENVIRONMENT_SET_PIXEL_FORMAT,
};
use tinic::error::ErrorHandle;
use tinic::game_tools::RomTools;
use tinic::options::{
    RawOptionCategory, RawOptionDefinition, RawOptionValue, RawOptionsV2, RawOptionsV2Intl,
};
use tinic::retro_core::{RetroCore, RetroPaths, RETRO_LANGUAGE_ENGLISH};
use tinic::system::{
    RawControllerDescription, RawControllerInfo, RawSubsystemInfo, RawSubsystemMemoryInfo,
    RawSubsystemRomInfo, RawSystemInfo, System,
};

fn raw_system() -> RawSystemInfo {
    RawSystemInfo {
        library_name: Some("snes9x".to_string()),
        library_version: Some("1.62".to_string()),
        valid_extensions: Some("smc|sfc|swc|fig".to_string()),
        need_fullpath: false,
        block_extract: false,
    }
}

fn paths() -> RetroPaths {
    RetroPaths {
        system: "out/system".to_string(),
        save: "out/save".to_string(),
        assets: "out/assets".to_string(),
        opt: "out/opt".to_string(),
    }
}

fn fresh_core() -> RetroCore {
    RetroCore::new(&raw_system(), paths(), GraphicApi::default())
}

fn loaded_core() -> RetroCore {
    let mut c = fresh_core();
    assert!(c.can_load_game().is_ok());
    assert!(c.finish_load_game(true, "/roms/Super Mario World (USA).sfc").is_ok());
    c
}

#[test]
fn new_core_is_initialised_without_rom() {
    let c = fresh_core();
    assert!(c.initialized);
    assert!(!c.game_loaded);
    assert!(!c.support_no_game);
    assert_eq!(c.rom_name, "");
    assert_eq!(c.system.info.library_name, "snes9x");
    assert_eq!(c.system.info.library_version, "1.62");
    assert_eq!(c.system.info.valid_extensions, "smc|sfc|swc|fig");
    assert_eq!(c.options.file_path, "out/opt/snes9x.opt");
    assert_eq!(c.av_info.video.pixel_format, PixelFormat::Unknown);
    assert_eq!(c.av_info.video.geometry.max_width, 0);
    assert!(!c.av_info.video.can_dupe);
    assert_eq!(c.language, RETRO_LANGUAGE_ENGLISH);
    assert!(c.options.categories.is_empty());
}

#[test]
fn init_twice_is_refused() {
    let mut c = fresh_core();
    let e = c.init().unwrap_err();
    assert_eq!(e.message, "Para inicializar um novo núcleo e necessário descarrega o núcleo atual");
}

#[test]
fn load_names_rom_after_its_file() {
    let c = loaded_core();
    assert!(c.game_loaded);
    assert_eq!(c.rom_name, "Super Mario World (USA)");
}

#[test]
fn failed_load_reports_error() {
    let mut c = fresh_core();
    let e = c.finish_load_game(false, "/roms/game.sfc").unwrap_err();
    assert_eq!(e.message, "nao foi possível carregar a rom");
    assert!(!c.game_loaded);
}

#[test]
fn checked_load_refuses_path_without_extension() {
    let mut c = fresh_core();
    assert!(c.finish_load_game_checked(true, "/roms/game").is_none());
    assert!(c.finish_load_game_checked(true, "/roms/.hidden").is_none());
    assert!(!c.game_loaded);
    assert!(c.finish_load_game_checked(true, "/roms/Mega Man X.sfc").unwrap().is_ok());
    assert!(c.game_loaded);
    assert_eq!(c.rom_name, "Mega Man X");
}

#[test]
fn checked_load_reports_failure_and_refusal() {
    let mut c = fresh_core();
    let e = c.finish_load_game_checked(false, "/roms/game.sfc").unwrap().unwrap_err();
    assert_eq!(e.message, "nao foi possível carregar a rom");
    assert!(!c.game_loaded);
    assert_eq!(c.rom_name, "");
    c.finish_load_game_checked(true, "/roms/game.sfc").unwrap().unwrap();
    let e = c.finish_load_game_checked(true, "/roms/other.sfc").unwrap().unwrap_err();
    assert_eq!(e.message, "Ja existe uma rom carregada no momento");
    assert_eq!(c.rom_name, "game");
    let mut c = fresh_core();
    c.de_init().unwrap();
    let e = c.finish_load_game_checked(true, "/roms/game.sfc").unwrap().unwrap_err();
    assert_eq!(e.message, "Para carregar uma rom o núcleo deve esta inicializado");
    assert!(!c.game_loaded);
}

#[test]
fn core_implement_tests() {
    let mut c = fresh_core();
    match c.core_environment(EnvRequest::GetLanguage) {
        (true, EnvReply::WriteU32(v)) => assert_eq!(v, RETRO_LANGUAGE_ENGLISH),
        _ => panic!("language"),
    }
    assert_eq!(c.language, RETRO_LANGUAGE_ENGLISH);
    assert_eq!(c.av_info.video.pixel_format, PixelFormat::Unknown);
}

#[test]
fn test_get_sys_info() {
    let raw = RawSystemInfo {
        library_name: Some("Snes9x".to_string()),
        library_version: Some("1.62.3 46f8a6b".to_string()),
        valid_extensions: Some("smc|sfc|swc|fig|bs|st".to_string()),
        need_fullpath: false,
        block_extract: false,
    };
    let sys = System::new(&raw);
    assert_eq!(sys.info.library_name, "Snes9x".to_owned());
    assert_eq!(sys.info.library_version, "1.62.3 46f8a6b".to_owned());
    assert_eq!(sys.info.valid_extensions, "smc|sfc|swc|fig|bs|st".to_owned());
    assert_eq!(sys.info.block_extract, false);
    assert_eq!(sys.info.need_full_path, false);
}

#[test]
fn second_rom_is_refused() {
    let c = loaded_core();
    assert_eq!(c.can_load_game().unwrap_err().message, "Ja existe uma rom carregada no momento");
}

#[test]
fn run_needs_a_rom() {
    let c = fresh_core();
    assert_eq!(c.run().unwrap_err().message, "Nao ha nenhuma rum carregada no momento");
    assert_eq!(c.reset().unwrap_err().message, "Nao ha nenhuma rum carregada no momento");
    let c = loaded_core();
    assert!(c.run().is_ok());
    assert!(c.reset().is_ok());
}

#[test]
fn run_needs_initialised_core() {
    let mut c = fresh_core();
    assert_eq!(c.de_init().unwrap(), false);
    assert_eq!(c.run().unwrap_err().message, "O núcleo nao foi inicializado");
    assert_eq!(c.can_load_game().unwrap_err().message, "Para carregar uma rom o núcleo deve esta inicializado");
}

#[test]
fn load_then_unload_returns_to_start() {
    let mut c = loaded_core();
    assert_eq!(c.unload_game().unwrap(), true);
    assert!(!c.game_loaded);
    assert!(c.initialized);
    assert_eq!(c.unload_game().unwrap(), false);
}

#[test]
fn de_init_then_init_again() {
    let mut c = loaded_core();
    assert_eq!(c.de_init().unwrap(), true);
    assert!(!c.initialized);
    assert!(!c.game_loaded);
    assert!(c.init().is_ok());
    assert!(c.initialized);
}

#[test]
fn connect_controller_needs_initialised_core() {
    let mut c = fresh_core();
    assert_eq!(c.connect_controller(1, 1).unwrap(), Some((1, 1)));
    assert_eq!(c.connect_controller(-1, 1).unwrap(), None);
    c.de_init().unwrap();
    assert_eq!(
        c.connect_controller(0, 1).unwrap_err().message,
        "Nao é possível conectar um controle pois nenhum núcleo foi inicializado"
    );
}

#[test]
fn save_state_path_is_by_library_rom_and_slot() {
    let c = loaded_core();
    let p = c.save_state(3).unwrap();
    assert_eq!(p.dir, "out/save/snes9x/Super Mario World (USA)");
    assert_eq!(p.file, "out/save/snes9x/Super Mario World (USA)/3.save");
    let p = c.load_state(12).unwrap();
    assert_eq!(p.file, "out/save/snes9x/Super Mario World (USA)/12.save");
}

#[test]
fn save_state_needs_a_rom() {
    let c = fresh_core();
    assert_eq!(c.save_state(0).unwrap_err().message, "Uma rom precisa ser carregada primeiro");
    assert_eq!(c.load_state(0).unwrap_err().message, "Uma rom precisa ser carregada primeiro");
}

#[test]
fn rom_name_removes_every_extension_occurrence() {
    assert_eq!(RomTools::get_rom_name("/a/b/game.sfc").unwrap(), "game");
    assert_eq!(RomTools::get_rom_name("/a/x.sfc.b/game.sfc.sfc").unwrap(), "game");
    assert_eq!(RomTools::get_rom_name("Final Fantasy VII (Disc 1).bin").unwrap(), "Final Fantasy VII (Disc 1)");
    assert_eq!(RomTools::rom_name_of_path("/a/b/game"), None);
    assert_eq!(RomTools::rom_name_of_path("/a/b/game.nes"), Some("game".to_string()));
    assert_eq!(RomTools::rom_name_of_path("/a/b/.nes"), None);
    assert_eq!(RomTools::rom_name_of_path("/a/b/game.tar.gz"), Some("game.tar".to_string()));
}

#[test]
fn rom_extension_must_be_listed() {
    let valid = "smc|sfc|swc".to_string();
    assert!(RomTools::valid_rom_extension(&valid, "/roms/game.sfc").is_ok());
    let e = RomTools::valid_rom_extension(&valid, "/roms/game.nes").unwrap_err();
    assert_eq!(e.message, "Extensão da rom invalida: valores esperados -> smc|sfc|swc; valor recebido -> nes");
    assert!(RomTools::rom_extension_check(&valid, "/roms/game").is_none());
    assert!(RomTools::rom_extension_check(&valid, "/roms/game.smc").unwrap().is_ok());
}

#[test]
fn state_checks_report_their_errors() {
    assert!(RomTools::check_serialized(true).is_ok());
    assert_eq!(RomTools::check_serialized(false).unwrap_err().message, "nao foi possível salva o estado atual");
    assert!(RomTools::check_state_size(10, 10).is_ok());
    assert_eq!(
        RomTools::check_state_size(10, 11).unwrap_err().message,
        "o state escolhido nao e correspondente ao core"
    );
    assert!(RomTools::check_unserialized(true).is_ok());
    assert_eq!(
        RomTools::check_unserialized(false).unwrap_err().message,
        "o core nao pode carregar o state escolhido"
    );
}

#[test]
fn save_path_layout() {
    let p = RomTools::get_save_path("saves", "mgba", "Pokemon", 0);
    assert_eq!(p.dir, "saves/mgba/Pokemon");
    assert_eq!(p.file, "saves/mgba/Pokemon/0.save");
    let p = RomTools::get_save_path("saves", "mgba", "Pokemon", 1009);
    assert_eq!(p.file, "saves/mgba/Pokemon/1009.save");
}

#[test]
fn error_from_string_keeps_message() {
    let e: ErrorHandle = ErrorHandle::from("falhou".to_string());
    assert_eq!(e.message, "falhou");
    assert_eq!(ErrorHandle::new("x").message, "x");
}

#[test]
fn geometry_update_and_null_geometry() {
    let mut av = AvInfo::new(GraphicApi::default());
    let g = GameGeometry { base_width: 256, base_height: 224, max_width: 512, max_height: 448 };
    assert!(av.try_set_new_geometry(Some(g)).is_ok());
    assert_eq!(av.video.geometry.max_width, 512);
    assert_eq!(av.video.geometry.base_height, 224);
    let e = av.try_set_new_geometry(None).unwrap_err();
    assert_eq!(e.message, "nao foi possível atualiza a geometria da textura");
    assert_eq!(av.video.geometry.max_height, 448);
}

#[test]
fn context_support() {
    assert!(check_context_support(HwContextType::OpenGl).is_ok());
    assert!(check_context_support(HwContextType::OpenGlCore).is_ok());
    assert!(check_context_support(HwContextType::NoContext).is_ok());
    assert_eq!(
        check_context_support(HwContextType::Vulkan).unwrap_err().message,
        "suporte para a api selecionada não está disponível"
    );
}

#[test]
fn render_buffer_follows_depth_and_stencil() {
    assert_eq!(render_buffer_config(true, true), Some((DEPTH24_STENCIL8, DEPTH_STENCIL_ATTACHMENT)));
    assert_eq!(render_buffer_config(true, false), Some((DEPTH_COMPONENT24, DEPTH_ATTACHMENT)));
    assert_eq!(render_buffer_config(false, true), None);
    assert_eq!(render_buffer_config(false, false), None);
}

#[test]
fn input_bitmasks() {
    let mut c = fresh_core();
    assert!(classify(RETRO_ENVIRONMENT_GET_INPUT_BITMASKS) == EnvCommand::GetInputBitmasks);
    let (served, reply) = c.core_environment(EnvRequest::GetInputBitmasks);
    assert!(served);
    assert!(matches!(reply, EnvReply::Nothing));
}

#[test]
fn pixel_format() {
    let mut c = fresh_core();
    assert!(classify(RETRO_ENVIRONMENT_SET_PIXEL_FORMAT) == EnvCommand::SetPixelFormat);
    let (served, _) = c.core_environment(EnvRequest::SetPixelFormat(PixelFormat::Rgb565));
    assert!(served);
    assert_eq!(c.av_info.video.pixel_format, PixelFormat::Rgb565);
}

#[test]
fn classify_knows_experimental_and_unknown_commands() {
    assert!(classify(RETRO_ENVIRONMENT_GET_VFS_INTERFACE) == EnvCommand::GetVfsInterface);
    assert!(classify(45) == EnvCommand::Unknown);
    assert!(classify(9999) == EnvCommand::Unknown);
}

#[test]
fn environment_simple_answers() {
    let mut c = fresh_core();
    match c.core_environment(EnvRequest::GetLanguage) {
        (true, EnvReply::WriteU32(v)) => assert_eq!(v, RETRO_LANGUAGE_ENGLISH),
        _ => panic!("language"),
    }
    match c.core_environment(EnvRequest::GetCoreOptionsVersion) {
        (true, EnvReply::WriteU32(v)) => assert_eq!(v, 2),
        _ => panic!("options version"),
    }
    match c.core_environment(EnvRequest::GetAudioVideoEnable) {
        (true, EnvReply::WriteU32(v)) => assert_eq!(v, 3),
        _ => panic!("audio video"),
    }
    match c.core_environment(EnvRequest::GetMessageInterfaceVersion) {
        (true, EnvReply::WriteUsize(v)) => assert_eq!(v, 1),
        _ => panic!("message interface"),
    }
    match c.core_environment(EnvRequest::GetSaveDirectory) {
        (true, EnvReply::WriteString(s)) => assert_eq!(s, "out/save"),
        _ => panic!("save dir"),
    }
    match c.core_environment(EnvRequest::GetSystemDirectory) {
        (true, EnvReply::WriteString(s)) => assert_eq!(s, "out/system"),
        _ => panic!("system dir"),
    }
    match c.core_environment(EnvRequest::GetCoreAssetsDirectory) {
        (true, EnvReply::WriteString(s)) => assert_eq!(s, "out/assets"),
        _ => panic!("assets dir"),
    }
    assert!(matches!(c.core_environment(EnvRequest::GetLogInterface), (true, EnvReply::ConfigureLogInterface)));
    assert!(matches!(c.core_environment(EnvRequest::SetInputDescriptors), (false, EnvReply::Nothing)));
    assert!(matches!(c.core_environment(EnvRequest::SetVariables), (false, EnvReply::Nothing)));
    assert!(matches!(c.core_environment(EnvRequest::Unknown(12345)), (false, EnvReply::Nothing)));
}

#[test]
fn environment_sets_core_state() {
    let mut c = fresh_core();
    assert!(c.core_environment(EnvRequest::SetSupportNoGame(true)).0);
    assert!(c.support_no_game);
    assert!(c.core_environment(EnvRequest::SetPerformanceLevel(7)).0);
    assert_eq!(c.system.performance_level, 7);
    assert!(!c.core_environment(EnvRequest::SetGeometry(None)).0);
    let g = GameGeometry { base_width: 320, base_height: 240, max_width: 640, max_height: 480 };
    assert!(c.core_environment(EnvRequest::SetGeometry(Some(g))).0);
    assert_eq!(c.av_info.video.geometry.base_width, 320);
}

fn options_request(saved: Option<&str>) -> EnvRequest {
    EnvRequest::SetCoreOptionsV2Intl {
        options: RawOptionsV2Intl {
            us: RawOptionsV2 {
                definitions: vec![RawOptionDefinition {
                    key: Some("mode".to_string()),
                    desc: None,
                    desc_categorized: None,
                    info: None,
                    info_categorized: None,
                    category_key: None,
                    values: vec![
                        RawOptionValue { value: Some("a".to_string()), label: Some("A".to_string()) },
                        RawOptionValue { value: Some("b".to_string()), label: Some("B".to_string()) },
                    ],
                    default_value: Some("a".to_string()),
                }],
                categories: vec![RawOptionCategory { key: Some("c".to_string()), desc: None, info: None }],
            },
            local: None,
        },
        saved_options: saved.map(|s| s.to_string()),
    }
}

#[test]
fn environment_options_without_file_asks_to_write_it() {
    let mut c = fresh_core();
    match c.core_environment(options_request(None)) {
        (true, EnvReply::WriteOptionsFile(f)) => assert_eq!(f, "mode=a\n"),
        _ => panic!("options file"),
    }
    assert_eq!(c.options.opts.len(), 1);
    assert_eq!(c.options.categories.len(), 1);
    match c.core_environment(EnvRequest::GetVariableUpdate) {
        (true, EnvReply::WriteBool(b)) => assert!(!b),
        _ => panic!("variable update"),
    }
    assert!(matches!(
        c.core_environment(EnvRequest::GetVariable(Some("mode".to_string()))),
        (false, EnvReply::Nothing)
    ));
}

#[test]
fn environment_options_with_file_restores_picks() {
    let mut c = fresh_core();
    assert!(matches!(c.core_environment(options_request(Some("mode=b\n"))), (true, EnvReply::Nothing)));
    match c.core_environment(EnvRequest::GetVariableUpdate) {
        (true, EnvReply::WriteBool(b)) => assert!(b),
        _ => panic!("variable update"),
    }
    match c.core_environment(EnvRequest::GetVariable(Some("mode".to_string()))) {
        (true, EnvReply::WriteString(s)) => assert_eq!(s, "b"),
        _ => panic!("variable"),
    }
    assert!(matches!(
        c.core_environment(EnvRequest::GetVariable(Some("mode".to_string()))),
        (false, EnvReply::Nothing)
    ));
    assert!(matches!(c.core_environment(EnvRequest::GetVariable(None)), (true, EnvReply::Nothing)));
}

#[test]
fn environment_option_display_hides_pick() {
    let mut c = fresh_core();
    c.core_environment(options_request(Some("mode=b\n")));
    assert!(c
        .core_environment(EnvRequest::SetCoreOptionsDisplay { key: "mode".to_string(), visible: false })
        .0);
    assert!(!c.options.opts[0].visibility);
    assert_eq!(c.options.updated_count, 0);
}

fn desc(d: Option<&str>, id: u32) -> RawControllerDescription {
    RawControllerDescription { desc: d.map(|s| s.to_string()), id }
}

#[test]
fn controller_info_is_read_up_to_first_gap() {
    let mut s = System::new(&raw_system());
    let infos = vec![
        RawControllerInfo { types: Some(vec![desc(Some("Joypad"), 1), desc(Some("Mouse"), 2), desc(Some("x"), 3)]), num_types: 2 },
        RawControllerInfo { types: Some(vec![desc(Some("Multitap"), 257), desc(None, 4), desc(Some("y"), 5)]), num_types: 3 },
        RawControllerInfo { types: Some(vec![desc(Some("z"), 6)]), num_types: 1 },
    ];
    s.get_ports(&infos);
    assert_eq!(s.ports.len(), 3);
    assert_eq!(s.ports[0].desc, "Joypad");
    assert_eq!(s.ports[1].id, 2);
    assert_eq!(s.ports[2].desc, "Multitap");
    assert_eq!(s.ports[2].id, 257);
}

#[test]
fn controller_info_stops_at_port_without_array() {
    let mut s = System::new(&raw_system());
    let infos = vec![
        RawControllerInfo { types: Some(vec![desc(Some("Joypad"), 1)]), num_types: 1 },
        RawControllerInfo { types: None, num_types: 0 },
        RawControllerInfo { types: Some(vec![desc(Some("late"), 9)]), num_types: 1 },
    ];
    s.get_ports(&infos);
    assert_eq!(s.ports.len(), 1);
    assert_eq!(s.ports[0].desc, "Joypad");
}

fn rom(d: &str) -> RawSubsystemRomInfo {
    RawSubsystemRomInfo {
        desc: Some(d.to_string()),
        valid_extensions: Some("gb".to_string()),
        need_fullpath: true,
        block_extract: false,
        required: true,
        memory: RawSubsystemMemoryInfo { extension: Some("sav".to_string()), type_: 1 },
        num_memory: 1,
    }
}

#[test]
fn subsystems_are_read_up_to_first_without_ident() {
    let mut s = System::new(&raw_system());
    let raw = vec![
        RawSubsystemInfo { desc: Some("Super Game Boy".to_string()), ident: Some("sgb".to_string()), roms: vec![rom("bios"), rom("game"), rom("extra")], num_roms: 2, id: 1 },
        RawSubsystemInfo { desc: None, ident: None, roms: vec![], num_roms: 0, id: 2 },
        RawSubsystemInfo { desc: None, ident: Some("late".to_string()), roms: vec![], num_roms: 0, id: 3 },
    ];
    s.get_subsystem(&raw);
    assert_eq!(s.subsystem.len(), 1);
    assert_eq!(s.subsystem[0].ident, "sgb");
    assert_eq!(s.subsystem[0].roms.len(), 2);
    assert_eq!(s.subsystem[0].roms[1].desc, "game");
    assert_eq!(s.subsystem[0].roms[0].memory.extension, "sav");
}
