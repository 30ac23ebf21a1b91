//! The environment callback: how the front end answers the requests a core makes while it
//! runs. The caller reads the request out of the core's memory, asks `core_environment`, and
//! writes the reply back.
use vstd::prelude::*;
use crate::av_info::{GameGeometry, Geometry, PixelFormat};
use crate::option_file::{parse_entries, serialize_entries};
use crate::options::{
    RawOptionsV2Intl, apply_entries, chosen_options, declared_categories, declared_definitions,
    definition_view, category_view, RawOptionDefinition, RawOptionCategory,
    stored_entries, take_spec, visibility_spec,
};
use crate::retro_core::RetroCore;
use crate::system::{RawControllerInfo, RawSubsystemInfo, described_prefix, flatten_infos, declared_subsystems, raw_subsystem_view};

verus! {

pub const RETRO_ENVIRONMENT_EXPERIMENTAL: u32 = 0x10000;
pub const RETRO_ENVIRONMENT_SET_PERFORMANCE_LEVEL: u32 = 8;
pub const RETRO_ENVIRONMENT_GET_SYSTEM_DIRECTORY: u32 = 9;
pub const RETRO_ENVIRONMENT_SET_PIXEL_FORMAT: u32 = 10;
pub const RETRO_ENVIRONMENT_SET_INPUT_DESCRIPTORS: u32 = 11;
pub const RETRO_ENVIRONMENT_GET_VARIABLE: u32 = 15;
pub const RETRO_ENVIRONMENT_SET_VARIABLES: u32 = 16;
pub const RETRO_ENVIRONMENT_GET_VARIABLE_UPDATE: u32 = 17;
pub const RETRO_ENVIRONMENT_SET_SUPPORT_NO_GAME: u32 = 18;
pub const RETRO_ENVIRONMENT_GET_RUMBLE_INTERFACE: u32 = 23;
pub const RETRO_ENVIRONMENT_GET_LOG_INTERFACE: u32 = 27;
pub const RETRO_ENVIRONMENT_GET_PERF_INTERFACE: u32 = 28;
pub const RETRO_ENVIRONMENT_GET_CORE_ASSETS_DIRECTORY: u32 = 30;
pub const RETRO_ENVIRONMENT_GET_SAVE_DIRECTORY: u32 = 31;
pub const RETRO_ENVIRONMENT_SET_SUBSYSTEM_INFO: u32 = 34;
pub const RETRO_ENVIRONMENT_SET_CONTROLLER_INFO: u32 = 35;
pub const RETRO_ENVIRONMENT_SET_GEOMETRY: u32 = 37;
pub const RETRO_ENVIRONMENT_GET_LANGUAGE: u32 = 39;
pub const RETRO_ENVIRONMENT_GET_VFS_INTERFACE: u32 = 45 | 0x10000;
pub const RETRO_ENVIRONMENT_GET_AUDIO_VIDEO_ENABLE: u32 = 47 | 0x10000;
pub const RETRO_ENVIRONMENT_GET_INPUT_BITMASKS: u32 = 51 | 0x10000;
pub const RETRO_ENVIRONMENT_GET_CORE_OPTIONS_VERSION: u32 = 52;
pub const RETRO_ENVIRONMENT_SET_CORE_OPTIONS_DISPLAY: u32 = 55;
pub const RETRO_ENVIRONMENT_GET_MESSAGE_INTERFACE_VERSION: u32 = 59;
pub const RETRO_ENVIRONMENT_SET_CORE_OPTIONS_V2_INTL: u32 = 68;
pub const RETRO_ENVIRONMENT_SET_CORE_OPTIONS_UPDATE_DISPLAY_CALLBACK: u32 = 69;
pub const RETRO_ENVIRONMENT_SET_VARIABLE: u32 = 70;

/// The requests the front end knows, by what they ask for.
#[derive(PartialEq, Eq, Structural, Clone, Copy)]
pub enum EnvCommand {
    SetSupportNoGame,
    GetLanguage,
    GetLogInterface,
    GetMessageInterfaceVersion,
    SetPerformanceLevel,
    GetPerfInterface,
    SetGeometry,
    SetPixelFormat,
    GetAudioVideoEnable,
    GetInputBitmasks,
    SetControllerInfo,
    SetInputDescriptors,
    GetRumbleInterface,
    GetCoreOptionsVersion,
    SetCoreOptionsV2Intl,
    SetCoreOptionsDisplay,
    SetCoreOptionsUpdateDisplayCallback,
    GetVariableUpdate,
    SetVariables,
    GetVariable,
    SetVariable,
    GetSystemDirectory,
    GetSaveDirectory,
    GetCoreAssetsDirectory,
    SetSubsystemInfo,
    GetVfsInterface,
    Unknown,
}

/// What a command number asks for.
pub open spec fn command_of(cmd: u32) -> EnvCommand {
    if cmd == RETRO_ENVIRONMENT_SET_SUPPORT_NO_GAME {
        EnvCommand::SetSupportNoGame
    } else if cmd == RETRO_ENVIRONMENT_GET_LANGUAGE {
        EnvCommand::GetLanguage
    } else if cmd == RETRO_ENVIRONMENT_GET_LOG_INTERFACE {
        EnvCommand::GetLogInterface
    } else if cmd == RETRO_ENVIRONMENT_GET_MESSAGE_INTERFACE_VERSION {
        EnvCommand::GetMessageInterfaceVersion
    } else if cmd == RETRO_ENVIRONMENT_SET_PERFORMANCE_LEVEL {
        EnvCommand::SetPerformanceLevel
    } else if cmd == RETRO_ENVIRONMENT_GET_PERF_INTERFACE {
        EnvCommand::GetPerfInterface
    } else if cmd == RETRO_ENVIRONMENT_SET_GEOMETRY {
        EnvCommand::SetGeometry
    } else if cmd == RETRO_ENVIRONMENT_SET_PIXEL_FORMAT {
        EnvCommand::SetPixelFormat
    } else if cmd == RETRO_ENVIRONMENT_GET_AUDIO_VIDEO_ENABLE {
        EnvCommand::GetAudioVideoEnable
    } else if cmd == RETRO_ENVIRONMENT_GET_INPUT_BITMASKS {
        EnvCommand::GetInputBitmasks
    } else if cmd == RETRO_ENVIRONMENT_SET_CONTROLLER_INFO {
        EnvCommand::SetControllerInfo
    } else if cmd == RETRO_ENVIRONMENT_SET_INPUT_DESCRIPTORS {
        EnvCommand::SetInputDescriptors
    } else if cmd == RETRO_ENVIRONMENT_GET_RUMBLE_INTERFACE {
        EnvCommand::GetRumbleInterface
    } else if cmd == RETRO_ENVIRONMENT_GET_CORE_OPTIONS_VERSION {
        EnvCommand::GetCoreOptionsVersion
    } else if cmd == RETRO_ENVIRONMENT_SET_CORE_OPTIONS_V2_INTL {
        EnvCommand::SetCoreOptionsV2Intl
    } else if cmd == RETRO_ENVIRONMENT_SET_CORE_OPTIONS_DISPLAY {
        EnvCommand::SetCoreOptionsDisplay
    } else if cmd == RETRO_ENVIRONMENT_SET_CORE_OPTIONS_UPDATE_DISPLAY_CALLBACK {
        EnvCommand::SetCoreOptionsUpdateDisplayCallback
    } else if cmd == RETRO_ENVIRONMENT_GET_VARIABLE_UPDATE {
        EnvCommand::GetVariableUpdate
    } else if cmd == RETRO_ENVIRONMENT_SET_VARIABLES {
        EnvCommand::SetVariables
    } else if cmd == RETRO_ENVIRONMENT_GET_VARIABLE {
        EnvCommand::GetVariable
    } else if cmd == RETRO_ENVIRONMENT_SET_VARIABLE {
        EnvCommand::SetVariable
    } else if cmd == RETRO_ENVIRONMENT_GET_SYSTEM_DIRECTORY {
        EnvCommand::GetSystemDirectory
    } else if cmd == RETRO_ENVIRONMENT_GET_SAVE_DIRECTORY {
        EnvCommand::GetSaveDirectory
    } else if cmd == RETRO_ENVIRONMENT_GET_CORE_ASSETS_DIRECTORY {
        EnvCommand::GetCoreAssetsDirectory
    } else if cmd == RETRO_ENVIRONMENT_SET_SUBSYSTEM_INFO {
        EnvCommand::SetSubsystemInfo
    } else if cmd == RETRO_ENVIRONMENT_GET_VFS_INTERFACE {
        EnvCommand::GetVfsInterface
    } else {
        EnvCommand::Unknown
    }
}

/// What a command number asks for; the caller reads the request's data accordingly.
pub fn classify(cmd: u32) -> (r: EnvCommand)
    ensures
        r == command_of(cmd),
{
    if cmd == RETRO_ENVIRONMENT_SET_SUPPORT_NO_GAME {
        EnvCommand::SetSupportNoGame
    } else if cmd == RETRO_ENVIRONMENT_GET_LANGUAGE {
        EnvCommand::GetLanguage
    } else if cmd == RETRO_ENVIRONMENT_GET_LOG_INTERFACE {
        EnvCommand::GetLogInterface
    } else if cmd == RETRO_ENVIRONMENT_GET_MESSAGE_INTERFACE_VERSION {
        EnvCommand::GetMessageInterfaceVersion
    } else if cmd == RETRO_ENVIRONMENT_SET_PERFORMANCE_LEVEL {
        EnvCommand::SetPerformanceLevel
    } else if cmd == RETRO_ENVIRONMENT_GET_PERF_INTERFACE {
        EnvCommand::GetPerfInterface
    } else if cmd == RETRO_ENVIRONMENT_SET_GEOMETRY {
        EnvCommand::SetGeometry
    } else if cmd == RETRO_ENVIRONMENT_SET_PIXEL_FORMAT {
        EnvCommand::SetPixelFormat
    } else if cmd == RETRO_ENVIRONMENT_GET_AUDIO_VIDEO_ENABLE {
        EnvCommand::GetAudioVideoEnable
    } else if cmd == RETRO_ENVIRONMENT_GET_INPUT_BITMASKS {
        EnvCommand::GetInputBitmasks
    } else if cmd == RETRO_ENVIRONMENT_SET_CONTROLLER_INFO {
        EnvCommand::SetControllerInfo
    } else if cmd == RETRO_ENVIRONMENT_SET_INPUT_DESCRIPTORS {
        EnvCommand::SetInputDescriptors
    } else if cmd == RETRO_ENVIRONMENT_GET_RUMBLE_INTERFACE {
        EnvCommand::GetRumbleInterface
    } else if cmd == RETRO_ENVIRONMENT_GET_CORE_OPTIONS_VERSION {
        EnvCommand::GetCoreOptionsVersion
    } else if cmd == RETRO_ENVIRONMENT_SET_CORE_OPTIONS_V2_INTL {
        EnvCommand::SetCoreOptionsV2Intl
    } else if cmd == RETRO_ENVIRONMENT_SET_CORE_OPTIONS_DISPLAY {
        EnvCommand::SetCoreOptionsDisplay
    } else if cmd == RETRO_ENVIRONMENT_SET_CORE_OPTIONS_UPDATE_DISPLAY_CALLBACK {
        EnvCommand::SetCoreOptionsUpdateDisplayCallback
    } else if cmd == RETRO_ENVIRONMENT_GET_VARIABLE_UPDATE {
        EnvCommand::GetVariableUpdate
    } else if cmd == RETRO_ENVIRONMENT_SET_VARIABLES {
        EnvCommand::SetVariables
    } else if cmd == RETRO_ENVIRONMENT_GET_VARIABLE {
        EnvCommand::GetVariable
    } else if cmd == RETRO_ENVIRONMENT_SET_VARIABLE {
        EnvCommand::SetVariable
    } else if cmd == RETRO_ENVIRONMENT_GET_SYSTEM_DIRECTORY {
        EnvCommand::GetSystemDirectory
    } else if cmd == RETRO_ENVIRONMENT_GET_SAVE_DIRECTORY {
        EnvCommand::GetSaveDirectory
    } else if cmd == RETRO_ENVIRONMENT_GET_CORE_ASSETS_DIRECTORY {
        EnvCommand::GetCoreAssetsDirectory
    } else if cmd == RETRO_ENVIRONMENT_SET_SUBSYSTEM_INFO {
        EnvCommand::SetSubsystemInfo
    } else if cmd == RETRO_ENVIRONMENT_GET_VFS_INTERFACE {
        EnvCommand::GetVfsInterface
    } else {
        EnvCommand::Unknown
    }
}

/// Each command number of the libretro API is read as the request of the same name, and
/// only that number is: 9 asks for the system directory, 31 for the save directory, 30 for
/// the core assets directory, 39 for the language, and so on; the experimental commands
/// carry the bit 0x10000. Every other number is unknown.
pub proof fn law_command_numbers(cmd: u32)
    ensures
        command_of(cmd) == EnvCommand::SetSupportNoGame <==> cmd == 18,
        command_of(cmd) == EnvCommand::GetLanguage <==> cmd == 39,
        command_of(cmd) == EnvCommand::GetLogInterface <==> cmd == 27,
        command_of(cmd) == EnvCommand::GetMessageInterfaceVersion <==> cmd == 59,
        command_of(cmd) == EnvCommand::SetPerformanceLevel <==> cmd == 8,
        command_of(cmd) == EnvCommand::GetPerfInterface <==> cmd == 28,
        command_of(cmd) == EnvCommand::SetGeometry <==> cmd == 37,
        command_of(cmd) == EnvCommand::SetPixelFormat <==> cmd == 10,
        command_of(cmd) == EnvCommand::GetAudioVideoEnable <==> cmd == 65583,
        command_of(cmd) == EnvCommand::GetInputBitmasks <==> cmd == 65587,
        command_of(cmd) == EnvCommand::SetControllerInfo <==> cmd == 35,
        command_of(cmd) == EnvCommand::SetInputDescriptors <==> cmd == 11,
        command_of(cmd) == EnvCommand::GetRumbleInterface <==> cmd == 23,
        command_of(cmd) == EnvCommand::GetCoreOptionsVersion <==> cmd == 52,
        command_of(cmd) == EnvCommand::SetCoreOptionsV2Intl <==> cmd == 68,
        command_of(cmd) == EnvCommand::SetCoreOptionsDisplay <==> cmd == 55,
        command_of(cmd) == EnvCommand::SetCoreOptionsUpdateDisplayCallback <==> cmd == 69,
        command_of(cmd) == EnvCommand::GetVariableUpdate <==> cmd == 17,
        command_of(cmd) == EnvCommand::SetVariables <==> cmd == 16,
        command_of(cmd) == EnvCommand::GetVariable <==> cmd == 15,
        command_of(cmd) == EnvCommand::SetVariable <==> cmd == 70,
        command_of(cmd) == EnvCommand::GetSystemDirectory <==> cmd == 9,
        command_of(cmd) == EnvCommand::GetSaveDirectory <==> cmd == 31,
        command_of(cmd) == EnvCommand::GetCoreAssetsDirectory <==> cmd == 30,
        command_of(cmd) == EnvCommand::SetSubsystemInfo <==> cmd == 34,
        command_of(cmd) == EnvCommand::GetVfsInterface <==> cmd == 65581,
        command_of(cmd) == EnvCommand::Unknown <==> (cmd != 18 && cmd != 39 && cmd != 27 && cmd != 59 && cmd != 8 && cmd != 28 && cmd != 37 && cmd != 10 && cmd != 65583 && cmd != 65587 && cmd != 35 && cmd != 11 && cmd != 23 && cmd != 52 && cmd != 68 && cmd != 55 && cmd != 69 && cmd != 17 && cmd != 16 && cmd != 15 && cmd != 70 && cmd != 9 && cmd != 31 && cmd != 30 && cmd != 34 && cmd != 65581),
{
    assert(45u32 | 0x10000u32 == 65581u32) by (bit_vector);
    assert(47u32 | 0x10000u32 == 65583u32) by (bit_vector);
    assert(51u32 | 0x10000u32 == 65587u32) by (bit_vector);
}

/// A request of the core with the data it carries. `None` in `SetGeometry` and in
/// `GetVariable` stands for a null pointer; `saved_options` is the options file, `None`
/// when it does not exist.
pub enum EnvRequest {
    SetSupportNoGame(bool),
    GetLanguage,
    GetLogInterface,
    GetMessageInterfaceVersion,
    SetPerformanceLevel(u8),
    GetPerfInterface,
    SetGeometry(Option<GameGeometry>),
    SetPixelFormat(PixelFormat),
    GetAudioVideoEnable,
    GetInputBitmasks,
    SetControllerInfo(Vec<RawControllerInfo>),
    SetInputDescriptors,
    GetRumbleInterface,
    GetCoreOptionsVersion,
    SetCoreOptionsV2Intl { options: RawOptionsV2Intl, saved_options: Option<String> },
    SetCoreOptionsDisplay { key: String, visible: bool },
    SetCoreOptionsUpdateDisplayCallback,
    GetVariableUpdate,
    SetVariables,
    GetVariable(Option<String>),
    SetVariable,
    GetSystemDirectory,
    GetSaveDirectory,
    GetCoreAssetsDirectory,
    SetSubsystemInfo(Vec<RawSubsystemInfo>),
    GetVfsInterface,
    Unknown(u32),
}

/// What the caller writes back for the core.
pub enum EnvReply {
    /// Nothing to write.
    Nothing,
    /// An unsigned int.
    WriteU32(u32),
    /// A `size_t`.
    WriteUsize(usize),
    /// A bool.
    WriteBool(bool),
    /// A string, as a C string.
    WriteString(String),
    /// Hand the core the front end's log callback.
    ConfigureLogInterface,
    /// Create the options file with these contents.
    WriteOptionsFile(String),
}

/// Two cores that differ at most in their options.
pub open spec fn same_except_options(a: RetroCore, b: RetroCore) -> bool {
    &&& a.rom_name == b.rom_name
    &&& a.initialized == b.initialized
    &&& a.game_loaded == b.game_loaded
    &&& a.support_no_game == b.support_no_game
    &&& a.language == b.language
    &&& a.av_info == b.av_info
    &&& a.system == b.system
    &&& a.paths == b.paths
    &&& a.options.file_path == b.options.file_path
}

/// A request whose data the front end can take: a saved options file must be readable.
pub open spec fn request_readable(request: EnvRequest) -> bool {
    request matches EnvRequest::SetCoreOptionsV2Intl { saved_options: Some(c), .. } ==> parse_entries(c@) is Some
}

impl RetroCore {
    /// Answers one request of the core: whether it was served, and what to write back.
    pub fn core_environment(&mut self, request: EnvRequest) -> (r: (bool, EnvReply))
        requires
            old(self).wf(),
            request_readable(request),
        ensures
            final(self).wf(),
            match request {
                EnvRequest::SetSupportNoGame(b) => r.0 && r.1 is Nothing && *final(self) == (RetroCore {
                    support_no_game: b,
                    ..*old(self)
                }),
                EnvRequest::GetLanguage => r.0 && (r.1 matches EnvReply::WriteU32(v) && v
                    == old(self).language) && *final(self) == *old(self),
                EnvRequest::GetLogInterface => r.0 && r.1 is ConfigureLogInterface && *final(self)
                    == *old(self),
                EnvRequest::GetMessageInterfaceVersion => r.0 && (r.1 matches EnvReply::WriteUsize(v) && v
                    == 1) && *final(self) == *old(self),
                EnvRequest::SetPerformanceLevel(level) => r.0 && r.1 is Nothing && final(self).system
                    == (crate::system::System { performance_level: level, ..old(self).system })
                    && *final(self) == (RetroCore { system: final(self).system, ..*old(self) }),
                EnvRequest::GetPerfInterface => r.0 && r.1 is Nothing && *final(self) == *old(self),
                EnvRequest::SetGeometry(g) => (r.0 <==> g is Some) && r.1 is Nothing && match g {
                    None => *final(self) == *old(self),
                    Some(g) => final(self).av_info.video.geometry == (Geometry {
                        base_width: g.base_width,
                        base_height: g.base_height,
                        max_width: g.max_width,
                        max_height: g.max_height,
                    }) && final(self).av_info.video.pixel_format == old(self).av_info.video.pixel_format
                        && final(self).av_info.video.graphic_api == old(self).av_info.video.graphic_api
                        && final(self).av_info.video.can_dupe == old(self).av_info.video.can_dupe
                        && *final(self) == (RetroCore { av_info: final(self).av_info, ..*old(self) }),
                },
                EnvRequest::SetPixelFormat(f) => r.0 && r.1 is Nothing && final(self).av_info.video.pixel_format
                    == f && final(self).av_info.video.geometry == old(self).av_info.video.geometry
                    && final(self).av_info.video.graphic_api == old(self).av_info.video.graphic_api
                    && final(self).av_info.video.can_dupe == old(self).av_info.video.can_dupe
                    && *final(self) == (RetroCore { av_info: final(self).av_info, ..*old(self) }),
                EnvRequest::GetAudioVideoEnable => r.0 && (r.1 matches EnvReply::WriteU32(v) && v == 3)
                    && *final(self) == *old(self),
                EnvRequest::GetInputBitmasks => r.0 && r.1 is Nothing && *final(self) == *old(self),
                EnvRequest::SetControllerInfo(infos) => r.0 && r.1 is Nothing && final(self).system.ports_view()
                    == described_prefix(flatten_infos(infos@)) && final(self).system.info
                    == old(self).system.info && final(self).system.subsystem == old(self).system.subsystem
                    && final(self).system.performance_level == old(self).system.performance_level
                    && *final(self) == (RetroCore { system: final(self).system, ..*old(self) }),
                EnvRequest::SetInputDescriptors => !r.0 && r.1 is Nothing && *final(self) == *old(self),
                EnvRequest::GetRumbleInterface => r.0 && r.1 is Nothing && *final(self) == *old(self),
                EnvRequest::GetCoreOptionsVersion => r.0 && (r.1 matches EnvReply::WriteU32(v) && v == 2)
                    && *final(self) == *old(self),
                EnvRequest::SetCoreOptionsV2Intl { options, saved_options } => {
                    &&& r.0
                    &&& same_except_options(*final(self), *old(self))
                    &&& exists|n: int, m: int|
                        declared_definitions(chosen_options(options).definitions@, n)
                            && declared_categories(chosen_options(options).categories@, m) && {
                            let declared = old(self).options.opts_view() + chosen_options(
                                options,
                            ).definitions@.take(n).map_values(|d: RawOptionDefinition| definition_view(d));
                            &&& final(self).options.categories_view() == old(self).options.categories_view()
                                + chosen_options(options).categories@.take(m).map_values(
                                |c: RawOptionCategory| category_view(c),
                            )
                            &&& match saved_options {
                                None => final(self).options.opts_view() == declared && (r.1 matches EnvReply::WriteOptionsFile(f)
                                    && f@ == serialize_entries(stored_entries(declared))),
                                Some(c) => r.1 is Nothing && final(self).options.opts_view() == apply_entries(
                                    declared,
                                    parse_entries(c@).unwrap(),
                                ),
                            }
                        }
                },
                EnvRequest::SetCoreOptionsDisplay { key, visible } => r.0 && r.1 is Nothing
                    && same_except_options(*final(self), *old(self)) && final(self).options.categories
                    == old(self).options.categories && final(self).options.opts_view() == visibility_spec(
                    old(self).options.opts_view(),
                    key@,
                    visible,
                ),
                EnvRequest::SetCoreOptionsUpdateDisplayCallback => !r.0 && r.1 is Nothing && *final(self)
                    == *old(self),
                EnvRequest::GetVariableUpdate => r.0 && (r.1 matches EnvReply::WriteBool(b) && b == (
                old(self).options.updated_count > 0)) && *final(self) == *old(self),
                EnvRequest::SetVariables => !r.0 && r.1 is Nothing && *final(self) == *old(self),
                EnvRequest::GetVariable(key) => match key {
                    None => r.0 && r.1 is Nothing && *final(self) == *old(self),
                    Some(k) => if old(self).options.updated_count < 1 {
                        !r.0 && r.1 is Nothing && *final(self) == *old(self)
                    } else {
                        &&& same_except_options(*final(self), *old(self))
                        &&& final(self).options.categories == old(self).options.categories
                        &&& final(self).options.opts_view() == take_spec(old(self).options.opts_view(), k@).1
                        &&& match take_spec(old(self).options.opts_view(), k@).0 {
                            None => !r.0 && r.1 is Nothing,
                            Some(v) => r.0 && (r.1 matches EnvReply::WriteString(s) && s@ == v),
                        }
                    },
                },
                EnvRequest::SetVariable => !r.0 && r.1 is Nothing && *final(self) == *old(self),
                EnvRequest::GetSystemDirectory => r.0 && (r.1 matches EnvReply::WriteString(s) && s@
                    == old(self).paths.system@) && *final(self) == *old(self),
                EnvRequest::GetSaveDirectory => r.0 && (r.1 matches EnvReply::WriteString(s) && s@
                    == old(self).paths.save@) && *final(self) == *old(self),
                EnvRequest::GetCoreAssetsDirectory => r.0 && (r.1 matches EnvReply::WriteString(s) && s@
                    == old(self).paths.assets@) && *final(self) == *old(self),
                EnvRequest::SetSubsystemInfo(raw) => r.0 && r.1 is Nothing && (exists|n: int|
                    declared_subsystems(raw@, n) && final(self).system.subsystem_view() == raw@.take(
                        n,
                    ).map_values(|s: RawSubsystemInfo| raw_subsystem_view(s))) && final(self).system.info
                    == old(self).system.info && final(self).system.ports == old(self).system.ports
                    && final(self).system.performance_level == old(self).system.performance_level
                    && *final(self) == (RetroCore { system: final(self).system, ..*old(self) }),
                EnvRequest::GetVfsInterface => r.0 && r.1 is Nothing && *final(self) == *old(self),
                EnvRequest::Unknown(_) => !r.0 && r.1 is Nothing && *final(self) == *old(self),
            },
    {
        match request {
            EnvRequest::SetSupportNoGame(b) => {
                self.support_no_game = b;
                (true, EnvReply::Nothing)
            },
            EnvRequest::GetLanguage => (true, EnvReply::WriteU32(self.language)),
            EnvRequest::GetLogInterface => (true, EnvReply::ConfigureLogInterface),
            EnvRequest::GetMessageInterfaceVersion => (true, EnvReply::WriteUsize(1)),
            EnvRequest::SetPerformanceLevel(level) => {
                self.system.performance_level = level;
                (true, EnvReply::Nothing)
            },
            EnvRequest::GetPerfInterface => (true, EnvReply::Nothing),
            EnvRequest::SetGeometry(g) => {
                match g {
                    None => (false, EnvReply::Nothing),
                    Some(g) => {
                        let _ = self.av_info.try_set_new_geometry(Some(g));
                        (true, EnvReply::Nothing)
                    },
                }
            },
            EnvRequest::SetPixelFormat(f) => {
                self.av_info.video.pixel_format = f;
                (true, EnvReply::Nothing)
            },
            EnvRequest::GetAudioVideoEnable => (true, EnvReply::WriteU32(3)),
            EnvRequest::GetInputBitmasks => (true, EnvReply::Nothing),
            EnvRequest::SetControllerInfo(infos) => {
                self.system.get_ports(&infos);
                (true, EnvReply::Nothing)
            },
            EnvRequest::SetInputDescriptors => (false, EnvReply::Nothing),
            EnvRequest::GetRumbleInterface => (true, EnvReply::Nothing),
            EnvRequest::GetCoreOptionsVersion => (true, EnvReply::WriteU32(2)),
            EnvRequest::SetCoreOptionsV2Intl { options, saved_options } => {
                self.options.convert_option_v2_intl(&options);
                let ghost declared = self.options.opts_view();
                let file = match &saved_options {
                    None => self.options.try_reload_pref_option(None),
                    Some(c) => self.options.try_reload_pref_option(Some(c.as_str())),
                };
                match file {
                    Some(f) => (true, EnvReply::WriteOptionsFile(f)),
                    None => (true, EnvReply::Nothing),
                }
            },
            EnvRequest::SetCoreOptionsDisplay { key, visible } => {
                self.options.change_visibility(key.as_str(), visible);
                (true, EnvReply::Nothing)
            },
            EnvRequest::SetCoreOptionsUpdateDisplayCallback => (false, EnvReply::Nothing),
            EnvRequest::GetVariableUpdate => (true, EnvReply::WriteBool(self.options.updated_count > 0)),
            EnvRequest::SetVariables => (false, EnvReply::Nothing),
            EnvRequest::GetVariable(key) => {
                match key {
                    None => (true, EnvReply::Nothing),
                    Some(k) => {
                        if self.options.updated_count < 1 {
                            return (false, EnvReply::Nothing);
                        }
                        match self.options.get_opt_value(k.as_str()) {
                            Some(v) => (true, EnvReply::WriteString(v)),
                            None => (false, EnvReply::Nothing),
                        }
                    },
                }
            },
            EnvRequest::SetVariable => (false, EnvReply::Nothing),
            EnvRequest::GetSystemDirectory => (true, EnvReply::WriteString(self.paths.system.clone())),
            EnvRequest::GetSaveDirectory => (true, EnvReply::WriteString(self.paths.save.clone())),
            EnvRequest::GetCoreAssetsDirectory => (true, EnvReply::WriteString(self.paths.assets.clone())),
            EnvRequest::SetSubsystemInfo(raw) => {
                self.system.get_subsystem(&raw);
                (true, EnvReply::Nothing)
            },
            EnvRequest::GetVfsInterface => (true, EnvReply::Nothing),
            EnvRequest::Unknown(_) => (false, EnvReply::Nothing),
        }
    }
}

} // verus!
