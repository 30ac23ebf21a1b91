//! The life of a core: initialised, with a rom loaded, running, saving and loading states,
//! unloaded and shut down. Every operation checks the state first; the calls into the core
//! itself are made by the caller once an operation has said yes.
use vstd::prelude::*;
use crate::av_info::{AvInfo, Geometry, GraphicApi, PixelFormat};
use crate::error::ErrorHandle;
use crate::game_tools::{RomTools, SavePath, path_extension, path_file_name, remove_all, decimal};
use crate::options::{OptionManager, str_or_empty};
use crate::paths::joined_path;
use crate::system::{RawSystemInfo, System};

verus! {

/// The language of the libretro API that a new core is told: English.
pub const RETRO_LANGUAGE_ENGLISH: u32 = 0;

/// The directories the front end hands to a core.
pub struct RetroPaths {
    pub system: String,
    pub save: String,
    pub assets: String,
    pub opt: String,
}

/// The two flags that decide what a core may do.
pub struct Lifecycle {
    pub initialized: bool,
    pub game_loaded: bool,
}

/// A rom is only ever loaded into an initialised core.
pub open spec fn lifecycle_ok(l: Lifecycle) -> bool {
    l.game_loaded ==> l.initialized
}

/// Initialising: refused while the core is initialised or holds a rom.
pub open spec fn init_step(l: Lifecycle) -> Option<Lifecycle> {
    if l.game_loaded || l.initialized {
        None
    } else {
        Some(Lifecycle { initialized: true, game_loaded: l.game_loaded })
    }
}

/// Whether a rom may be loaded: only into an initialised core that holds none.
pub open spec fn can_load(l: Lifecycle) -> bool {
    !l.game_loaded && l.initialized
}

/// Running a frame or resetting: only with a rom loaded into an initialised core.
pub open spec fn can_run(l: Lifecycle) -> bool {
    l.initialized && l.game_loaded
}

/// Unloading: nothing to do without a rom (`Some(false)`), refused in a core that is not
/// initialised (`None`), else the rom is unloaded (`Some(true)`).
pub open spec fn unload_step(l: Lifecycle) -> (Option<bool>, Lifecycle) {
    if !l.game_loaded {
        (Some(false), l)
    } else if !l.initialized {
        (None, l)
    } else {
        (Some(true), Lifecycle { initialized: true, game_loaded: false })
    }
}

/// Shutting down: the rom is unloaded first, and the core ends up not initialised whether
/// that worked or not.
pub open spec fn deinit_step(l: Lifecycle) -> (Option<bool>, Lifecycle) {
    let (u, after) = unload_step(l);
    (u, Lifecycle { initialized: false, game_loaded: after.game_loaded })
}

/// Every step keeps a rom from being loaded into a core that is not initialised.
pub proof fn law_lifecycle_invariant(l: Lifecycle, loaded: bool)
    requires
        lifecycle_ok(l),
    ensures
        init_step(l) matches Some(n) ==> lifecycle_ok(n),
        can_load(l) ==> lifecycle_ok(Lifecycle { initialized: l.initialized, game_loaded: loaded }),
        lifecycle_ok(unload_step(l).1),
        lifecycle_ok(deinit_step(l).1),
{
}

/// Shutting down a core in a reachable state always works, leaves it without a rom, and
/// lets it be initialised again.
pub proof fn law_deinit_then_init(l: Lifecycle)
    requires
        lifecycle_ok(l),
    ensures
        deinit_step(l).0 is Some,
        deinit_step(l).1 == (Lifecycle { initialized: false, game_loaded: false }),
        init_step(deinit_step(l).1) == Some(Lifecycle { initialized: true, game_loaded: false }),
{
}

/// Loading a rom and unloading it brings the core back to where it was.
pub proof fn law_load_then_unload(l: Lifecycle)
    requires
        can_load(l),
    ensures
        unload_step(Lifecycle { initialized: l.initialized, game_loaded: true }) == (Some(true), l),
{
}

/// The directory of a core's save states: `<save>/<library name>/<rom name>`.
pub open spec fn state_dir(c: RetroCore) -> Seq<char> {
    joined_path(joined_path(c.paths.save@, c.system.info.library_name@), c.rom_name@)
}

/// The file of the save state in `slot`: `<slot>.save` in the states directory. Saving and
/// loading a slot both go to this file.
pub open spec fn state_file(c: RetroCore, slot: nat) -> Seq<char> {
    joined_path(state_dir(c), decimal(slot) + ".save"@)
}

/// A core, as the front end keeps it.
pub struct RetroCore {
    pub rom_name: String,
    pub initialized: bool,
    pub game_loaded: bool,
    pub support_no_game: bool,
    pub language: u32,
    pub av_info: AvInfo,
    pub system: System,
    pub paths: RetroPaths,
    pub options: OptionManager,
}

impl RetroCore {
    pub open spec fn lifecycle(&self) -> Lifecycle {
        Lifecycle { initialized: self.initialized, game_loaded: self.game_loaded }
    }

    /// The state every operation keeps.
    pub open spec fn wf(&self) -> bool {
        self.options.wf() && lifecycle_ok(self.lifecycle())
    }

    /// A freshly opened core, initialised, with no rom: its system is what the core said
    /// about itself, and its options file is `<library name>.opt` in the options directory.
    pub fn new(raw_system: &RawSystemInfo, paths: RetroPaths, graphic_api: GraphicApi) -> (r: RetroCore)
        ensures
            r.wf(),
            r.initialized && !r.game_loaded && !r.support_no_game,
            r.rom_name@ == Seq::<char>::empty(),
            r.system.info.library_name@ == str_or_empty(raw_system.library_name),
            r.system.info.valid_extensions@ == str_or_empty(raw_system.valid_extensions),
            r.system.info.library_version@ == str_or_empty(raw_system.library_version),
            r.system.info.need_full_path == raw_system.need_fullpath,
            r.system.info.block_extract == raw_system.block_extract,
            r.system.ports@.len() == 0,
            r.system.subsystem@.len() == 0,
            r.system.performance_level == 0,
            r.language == RETRO_LANGUAGE_ENGLISH,
            r.options.file_path@ == joined_path(paths.opt@, str_or_empty(raw_system.library_name) + ".opt"@),
            r.options.opts@.len() == 0,
            r.options.categories@.len() == 0,
            r.options.updated_count == 0,
            !r.av_info.video.can_dupe,
            r.av_info.video.pixel_format == PixelFormat::Unknown,
            r.av_info.video.geometry == (Geometry { base_width: 0, base_height: 0, max_width: 0, max_height: 0 }),
            r.av_info.video.graphic_api == graphic_api,
            r.paths == paths,
    {
        let system = System::new(raw_system);
        let options = OptionManager::new(paths.opt.as_str(), system.info.library_name.clone());
        let mut core = RetroCore {
            rom_name: String::new(),
            initialized: false,
            game_loaded: false,
            support_no_game: false,
            language: RETRO_LANGUAGE_ENGLISH,
            av_info: AvInfo::new(graphic_api),
            system,
            paths,
            options,
        };
        let r = core.init();
        assert(r is Ok);
        core
    }

    /// Marks the core initialised; refused while it is initialised or holds a rom.
    pub fn init(&mut self) -> (r: Result<(), ErrorHandle>)
        requires
            old(self).wf(),
        ensures
            final(self).wf(),
            r is Ok <==> init_step(old(self).lifecycle()) is Some,
            r is Ok ==> final(self).lifecycle() == init_step(old(self).lifecycle()).unwrap(),
            r is Err ==> final(self).lifecycle() == old(self).lifecycle(),
            r matches Err(e) ==> e.message@
                == "Para inicializar um novo núcleo e necessário descarrega o núcleo atual"@,
            final(self).options == old(self).options,
            final(self).rom_name == old(self).rom_name,
            final(self).system == old(self).system,
            final(self).paths == old(self).paths,
            final(self).av_info == old(self).av_info,
            final(self).support_no_game == old(self).support_no_game,
            final(self).language == old(self).language,
    {
        if self.game_loaded || self.initialized {
            return Err(
                ErrorHandle::new("Para inicializar um novo núcleo e necessário descarrega o núcleo atual"),
            );
        }
        self.initialized = true;
        Ok(())
    }

    /// Whether a rom may be loaded now.
    pub fn can_load_game(&self) -> (r: Result<(), ErrorHandle>)
        ensures
            r is Ok <==> can_load(self.lifecycle()),
            r matches Err(e) ==> (if self.game_loaded {
                e.message@ == "Ja existe uma rom carregada no momento"@
            } else {
                e.message@ == "Para carregar uma rom o núcleo deve esta inicializado"@
            }),
    {
        if self.game_loaded {
            return Err(ErrorHandle::new("Ja existe uma rom carregada no momento"));
        }
        if !self.initialized {
            return Err(ErrorHandle::new("Para carregar uma rom o núcleo deve esta inicializado"));
        }
        Ok(())
    }

    /// Records the outcome of loading the rom at `path`, once `can_load_game` said yes and
    /// the core was asked to load it: a loaded rom is named after its file.
    pub fn finish_load_game(&mut self, loaded: bool, path: &str) -> (r: Result<(), ErrorHandle>)
        requires
            old(self).wf(),
            can_load(old(self).lifecycle()),
            loaded ==> path_extension(path@) is Some,
        ensures
            final(self).wf(),
            final(self).game_loaded == loaded,
            final(self).initialized,
            r is Ok <==> loaded,
            loaded ==> final(self).rom_name@ == remove_all(
                path_file_name(path@).unwrap(),
                seq!['.'] + path_extension(path@).unwrap(),
            ),
            !loaded ==> final(self).rom_name == old(self).rom_name,
            r matches Err(e) ==> e.message@ == "nao foi possível carregar a rom"@,
            final(self).options == old(self).options,
            final(self).system == old(self).system,
            final(self).paths == old(self).paths,
            final(self).av_info == old(self).av_info,
            final(self).support_no_game == old(self).support_no_game,
            final(self).language == old(self).language,
    {
        self.game_loaded = loaded;
        if loaded {
            match RomTools::get_rom_name(path) {
                Ok(n) => {
                    self.rom_name = n;
                },
                Err(e) => {
                    return Err(e);
                },
            }
            Ok(())
        } else {
            Err(ErrorHandle::new("nao foi possível carregar a rom"))
        }
    }

    /// Records the outcome of loading the rom at `path`, in any state and for any path: where
    /// no rom may be loaded it is refused with the error of `can_load_game`; a loaded rom whose
    /// path has no extension gives `None`; both leave the core as it was. Otherwise it does
    /// what `finish_load_game` does.
    pub fn finish_load_game_checked(&mut self, loaded: bool, path: &str) -> (r: Option<Result<(), ErrorHandle>>)
        requires
            old(self).wf(),
        ensures
            final(self).wf(),
            !can_load(old(self).lifecycle()) ==> *final(self) == *old(self) && (r matches Some(Err(e))
                && (if old(self).game_loaded {
                e.message@ == "Ja existe uma rom carregada no momento"@
            } else {
                e.message@ == "Para carregar uma rom o núcleo deve esta inicializado"@
            })),
            can_load(old(self).lifecycle()) ==> (r is None <==> (loaded && path_extension(path@) is None)),
            r is None ==> *final(self) == *old(self),
            (can_load(old(self).lifecycle()) && r is Some) ==> {
                &&& final(self).game_loaded == loaded
                &&& final(self).initialized
                &&& (r->0 is Ok <==> loaded)
                &&& (loaded ==> final(self).rom_name@ == remove_all(
                    path_file_name(path@).unwrap(),
                    seq!['.'] + path_extension(path@).unwrap(),
                ))
                &&& (!loaded ==> final(self).rom_name == old(self).rom_name)
                &&& (r->0 matches Err(e) ==> e.message@ == "nao foi possível carregar a rom"@)
            },
            final(self).options == old(self).options,
            final(self).system == old(self).system,
            final(self).paths == old(self).paths,
            final(self).av_info == old(self).av_info,
            final(self).support_no_game == old(self).support_no_game,
            final(self).language == old(self).language,
    {
        match self.can_load_game() {
            Err(e) => {
                return Some(Err(e));
            },
            Ok(()) => {},
        }
        if loaded && crate::game_tools::extension_of(path).is_none() {
            return None;
        }
        Some(self.finish_load_game(loaded, path))
    }

    fn check_running(&self) -> (r: Result<(), ErrorHandle>)
        ensures
            r is Ok <==> can_run(self.lifecycle()),
            r matches Err(e) ==> (if !self.initialized {
                e.message@ == "O núcleo nao foi inicializado"@
            } else {
                e.message@ == "Nao ha nenhuma rum carregada no momento"@
            }),
    {
        if !self.initialized {
            return Err(ErrorHandle::new("O núcleo nao foi inicializado"));
        }
        if !self.game_loaded {
            return Err(ErrorHandle::new("Nao ha nenhuma rum carregada no momento"));
        }
        Ok(())
    }

    /// Whether the core may be reset now.
    pub fn reset(&self) -> (r: Result<(), ErrorHandle>)
        ensures
            r is Ok <==> can_run(self.lifecycle()),
            r matches Err(e) ==> (if !self.initialized {
                e.message@ == "O núcleo nao foi inicializado"@
            } else {
                e.message@ == "Nao ha nenhuma rum carregada no momento"@
            }),
    {
        self.check_running()
    }

    /// Whether the core may run a frame now.
    pub fn run(&self) -> (r: Result<(), ErrorHandle>)
        ensures
            r is Ok <==> can_run(self.lifecycle()),
            r matches Err(e) ==> (if !self.initialized {
                e.message@ == "O núcleo nao foi inicializado"@
            } else {
                e.message@ == "Nao ha nenhuma rum carregada no momento"@
            }),
    {
        self.check_running()
    }

    /// Unloads the rom: `Ok(true)` when there was one and the core is to be told,
    /// `Ok(false)` when there was none.
    pub fn unload_game(&mut self) -> (r: Result<bool, ErrorHandle>)
        requires
            old(self).wf(),
        ensures
            final(self).wf(),
            (match r {
                Ok(b) => Some(b),
                Err(_) => None::<bool>,
            }) == unload_step(old(self).lifecycle()).0,
            final(self).lifecycle() == unload_step(old(self).lifecycle()).1,
            r matches Err(e) ==> e.message@ == "Para descarregar uma rom o núcleo deve esta inicializado"@,
            final(self).options == old(self).options,
            final(self).rom_name == old(self).rom_name,
            final(self).system == old(self).system,
            final(self).paths == old(self).paths,
            final(self).av_info == old(self).av_info,
            final(self).support_no_game == old(self).support_no_game,
            final(self).language == old(self).language,
    {
        if !self.game_loaded {
            return Ok(false);
        }
        if !self.initialized {
            return Err(ErrorHandle::new("Para descarregar uma rom o núcleo deve esta inicializado"));
        }
        self.game_loaded = false;
        Ok(true)
    }

    /// Shuts the core down: unloads the rom (`Ok(true)` when the core is to be told) and
    /// marks the core not initialised, whether the unloading worked or not.
    pub fn de_init(&mut self) -> (r: Result<bool, ErrorHandle>)
        requires
            old(self).wf(),
        ensures
            final(self).wf(),
            (match r {
                Ok(b) => Some(b),
                Err(_) => None::<bool>,
            }) == deinit_step(old(self).lifecycle()).0,
            final(self).lifecycle() == deinit_step(old(self).lifecycle()).1,
            final(self).options == old(self).options,
            final(self).rom_name == old(self).rom_name,
            final(self).system == old(self).system,
            final(self).paths == old(self).paths,
            final(self).av_info == old(self).av_info,
            final(self).support_no_game == old(self).support_no_game,
            final(self).language == old(self).language,
    {
        let r = self.unload_game();
        self.initialized = false;
        r
    }

    /// The port and device to hand to the core for a controller, if any: refused when the
    /// core is not initialised, nothing for the invalid port `-1`.
    pub fn connect_controller(&self, port: i16, controller: u32) -> (r: Result<Option<(u32, u32)>, ErrorHandle>)
        ensures
            r is Ok <==> self.initialized,
            r matches Ok(p) ==> p == (if port == -1 {
                None
            } else {
                Some((port as u32, controller))
            }),
            r matches Err(e) ==> e.message@
                == "Nao é possível conectar um controle pois nenhum núcleo foi inicializado"@,
    {
        if !self.initialized {
            return Err(
                ErrorHandle::new("Nao é possível conectar um controle pois nenhum núcleo foi inicializado"),
            );
        }
        if port != -1 {
            Ok(Some((port as u32, controller)))
        } else {
            Ok(None)
        }
    }

    /// Where the state in `slot` is to be saved, when a rom is loaded into an initialised
    /// core.
    pub fn save_state(&self, slot: usize) -> (r: Result<SavePath, ErrorHandle>)
        ensures
            r is Ok <==> can_run(self.lifecycle()),
            r matches Err(e) ==> (if !self.game_loaded {
                e.message@ == "Uma rom precisa ser carregada primeiro"@
            } else {
                e.message@ == "Para salva um state o núcleo deve esta inicializado"@
            }),
            r matches Ok(p) ==> p.dir@ == state_dir(*self) && p.file@ == state_file(*self, slot as nat),
    {
        if !self.game_loaded {
            return Err(ErrorHandle::new("Uma rom precisa ser carregada primeiro"));
        }
        if !self.initialized {
            return Err(ErrorHandle::new("Para salva um state o núcleo deve esta inicializado"));
        }
        Ok(
            RomTools::get_save_path(
                self.paths.save.as_str(),
                self.system.info.library_name.as_str(),
                self.rom_name.as_str(),
                slot,
            ),
        )
    }

    /// Where the state in `slot` is to be read from, when a rom is loaded into an
    /// initialised core.
    pub fn load_state(&self, slot: usize) -> (r: Result<SavePath, ErrorHandle>)
        ensures
            r is Ok <==> can_run(self.lifecycle()),
            r matches Err(e) ==> (if !self.game_loaded {
                e.message@ == "Uma rom precisa ser carregada primeiro"@
            } else {
                e.message@ == "Para carregar um state o núcleo deve esta inicializado"@
            }),
            r matches Ok(p) ==> p.dir@ == state_dir(*self) && p.file@ == state_file(*self, slot as nat),
    {
        if !self.game_loaded {
            return Err(ErrorHandle::new("Uma rom precisa ser carregada primeiro"));
        }
        if !self.initialized {
            return Err(ErrorHandle::new("Para carregar um state o núcleo deve esta inicializado"));
        }
        Ok(
            RomTools::get_save_path(
                self.paths.save.as_str(),
                self.system.info.library_name.as_str(),
                self.rom_name.as_str(),
                slot,
            ),
        )
    }
}

} // verus!
