//! System configuration: the settings of each subsystem, their defaults,
//! and the tuning that the performance and power-saving profiles apply.

use vstd::prelude::*;
use crate::text::{string_from_str, string_push_str};
use crate::kernel::drivers::filesystem::{first_at, first_index, mounted, Filesystem, FilesystemManager};

verus! {

/// The views of a list of strings.
pub open spec fn strings_view(v: Seq<String>) -> Seq<Seq<char>> {
    v.map_values(|s: String| s@)
}

/// Audio configuration
#[derive(Debug, Clone)]
pub struct AudioConfig {
    /// Whether audio is enabled
    pub enabled: bool,
    /// Master volume (0-100)
    pub master_volume: u8,
    /// Sound effects volume (0-100)
    pub sfx_volume: u8,
    /// Music volume (0-100)
    pub music_volume: u8,
    /// Voice volume (0-100)
    pub voice_volume: u8,
    /// Sample rate in Hz
    pub sample_rate: u32,
    /// Audio buffer size in frames
    pub buffer_size: u32,
    /// Whether to use hardware acceleration
    pub hardware_acceleration: bool,
    /// Whether surround sound is enabled
    pub surround: bool,
    /// Audio backend to use
    pub backend: String,
}

/// `c` holds the default AudioConfig settings.
pub open spec fn is_default_audio_config(c: AudioConfig) -> bool {
    &&& c.enabled == true
    &&& c.master_volume == 80
    &&& c.sfx_volume == 80
    &&& c.music_volume == 70
    &&& c.voice_volume == 85
    &&& c.sample_rate == 48000
    &&& c.buffer_size == 1024
    &&& c.hardware_acceleration == true
    &&& c.surround == false
    &&& c.backend@ == "default"@
}

impl Default for AudioConfig {
    fn default() -> (c: Self)
        ensures
            is_default_audio_config(c),
    {
        Self {
            enabled: true,
            master_volume: 80,
            sfx_volume: 80,
            music_volume: 70,
            voice_volume: 85,
            sample_rate: 48000,
            buffer_size: 1024,
            hardware_acceleration: true,
            surround: false,
            backend: string_from_str("default"),
        }
    }
}

/// Network configuration
#[derive(Debug, Clone)]
pub struct NetworkConfig {
    /// Whether networking is enabled
    pub enabled: bool,
    /// Preferred interface
    pub preferred_interface: String,
    /// Whether to use DHCP
    pub use_dhcp: bool,
    /// Static IP address
    pub static_ip: Option<String>,
    /// Subnet mask
    pub subnet_mask: Option<String>,
    /// Default gateway
    pub gateway: Option<String>,
    /// DNS servers
    pub dns_servers: Vec<String>,
    /// Maximum bandwidth limit in KB/s (0 for unlimited)
    pub bandwidth_limit: u32,
    /// Connection timeout in seconds
    pub connection_timeout: u16,
    /// Whether to allow background network activity
    pub allow_background: bool,
}

/// `c` holds the default NetworkConfig settings.
pub open spec fn is_default_network_config(c: NetworkConfig) -> bool {
    &&& c.enabled == true
    &&& c.preferred_interface@ == "eth0"@
    &&& c.use_dhcp == true
    &&& c.static_ip is None
    &&& c.subnet_mask is None
    &&& c.gateway is None
    &&& strings_view(c.dns_servers@) == seq!["8.8.8.8"@, "1.1.1.1"@]
    &&& c.bandwidth_limit == 0
    &&& c.connection_timeout == 30
    &&& c.allow_background == true
}

impl Default for NetworkConfig {
    fn default() -> (c: Self)
        ensures
            is_default_network_config(c),
    {
        let dns_servers_list: Vec<String> = vec![string_from_str("8.8.8.8"), string_from_str("1.1.1.1")];
        assert(strings_view(dns_servers_list@) =~= seq!["8.8.8.8"@, "1.1.1.1"@]);
        Self {
            enabled: true,
            preferred_interface: string_from_str("eth0"),
            use_dhcp: true,
            static_ip: None,
            subnet_mask: None,
            gateway: None,
            dns_servers: dns_servers_list,
            bandwidth_limit: 0,
            connection_timeout: 30,
            allow_background: true,
        }
    }
}

/// GPU configuration
#[derive(Debug, Clone)]
pub struct GpuConfig {
    /// Preferred GPU (useful for multi-GPU systems)
    pub preferred_gpu: String,
    /// Texture quality (0=Low, 1=Medium, 2=High, 3=Ultra)
    pub texture_quality: u8,
    /// Shadow quality (0=Off, 1=Low, 2=Medium, 3=High)
    pub shadow_quality: u8,
    /// Anti-aliasing level (0=Off, 1=FXAA, 2=MSAA2x, 3=MSAA4x, 4=MSAA8x)
    pub antialiasing: u8,
    /// Anisotropic filtering level (0, 2, 4, 8, 16)
    pub anisotropic_filtering: u8,
    /// Whether to use tessellation
    pub tessellation: bool,
    /// Whether to use ray tracing
    pub ray_tracing: bool,
    /// VRAM usage limit in MB (0 for unlimited)
    pub vram_limit: u32,
    /// Shader quality (0=Low, 1=Medium, 2=High)
    pub shader_quality: u8,
    /// Whether to use compute shaders
    pub compute_shaders: bool,
    /// Whether to use asynchronous compute
    pub async_compute: bool,
}

/// `c` holds the default GpuConfig settings.
pub open spec fn is_default_gpu_config(c: GpuConfig) -> bool {
    &&& c.preferred_gpu@ == "auto"@
    &&& c.texture_quality == 2
    &&& c.shadow_quality == 2
    &&& c.antialiasing == 2
    &&& c.anisotropic_filtering == 8
    &&& c.tessellation == true
    &&& c.ray_tracing == false
    &&& c.vram_limit == 0
    &&& c.shader_quality == 2
    &&& c.compute_shaders == true
    &&& c.async_compute == true
}

impl Default for GpuConfig {
    fn default() -> (c: Self)
        ensures
            is_default_gpu_config(c),
    {
        Self {
            preferred_gpu: string_from_str("auto"),
            texture_quality: 2,
            shadow_quality: 2,
            antialiasing: 2,
            anisotropic_filtering: 8,
            tessellation: true,
            ray_tracing: false,
            vram_limit: 0,
            shader_quality: 2,
            compute_shaders: true,
            async_compute: true,
        }
    }
}

/// Performance configuration
#[derive(Debug, Clone)]
pub struct PerformanceConfig {
    /// Process priority (0=Low, 1=Normal, 2=High)
    pub process_priority: u8,
    /// Whether to use all available CPU cores
    pub use_all_cores: bool,
    /// Maximum CPU usage percentage (0-100, 0 for unlimited)
    pub max_cpu_usage: u8,
    /// Thread pool size (0 for automatic)
    pub thread_pool_size: u16,
    /// IO buffer size in KB
    pub io_buffer_size: u32,
    /// Whether to preload assets
    pub preload_assets: bool,
    /// Memory pool size in MB
    pub memory_pool_size: u32,
    /// Whether to use memory compression
    pub memory_compression: bool,
    /// Whether to optimize for latency or throughput
    pub optimize_for_latency: bool,
    /// Whether to enable aggressive optimizations
    pub aggressive_optimization: bool,
}

/// `c` holds the default PerformanceConfig settings.
pub open spec fn is_default_performance_config(c: PerformanceConfig) -> bool {
    &&& c.process_priority == 1
    &&& c.use_all_cores == true
    &&& c.max_cpu_usage == 0
    &&& c.thread_pool_size == 0
    &&& c.io_buffer_size == 1024
    &&& c.preload_assets == true
    &&& c.memory_pool_size == 512
    &&& c.memory_compression == true
    &&& c.optimize_for_latency == true
    &&& c.aggressive_optimization == false
}

impl Default for PerformanceConfig {
    fn default() -> (c: Self)
        ensures
            is_default_performance_config(c),
    {
        Self {
            process_priority: 1,
            use_all_cores: true,
            max_cpu_usage: 0,
            thread_pool_size: 0,
            io_buffer_size: 1024,
            preload_assets: true,
            memory_pool_size: 512,
            memory_compression: true,
            optimize_for_latency: true,
            aggressive_optimization: false,
        }
    }
}

/// Power management configuration
#[derive(Debug, Clone)]
pub struct PowerConfig {
    /// Power profile (0=Balanced, 1=Performance, 2=Power Saving)
    pub power_profile: u8,
    /// Whether to reduce performance on battery
    pub reduce_on_battery: bool,
    /// Screen timeout in seconds (0 for never)
    pub screen_timeout: u16,
    /// System sleep timeout in minutes (0 for never)
    pub sleep_timeout: u16,
    /// CPU governor (e.g., "ondemand", "performance", "powersave")
    pub cpu_governor: String,
    /// GPU power state (0=Auto, 1=Full, 2=Reduced, 3=Minimum)
    pub gpu_power_state: u8,
    /// Whether to enable dynamic frequency scaling
    pub dynamic_frequency: bool,
    /// Low battery threshold percentage
    pub low_battery_threshold: u8,
    /// Critical battery threshold percentage
    pub critical_battery_threshold: u8,
    /// Whether to show battery percentage
    pub show_battery_percentage: bool,
}

/// `c` holds the default PowerConfig settings.
pub open spec fn is_default_power_config(c: PowerConfig) -> bool {
    &&& c.power_profile == 0
    &&& c.reduce_on_battery == true
    &&& c.screen_timeout == 300
    &&& c.sleep_timeout == 30
    &&& c.cpu_governor@ == "ondemand"@
    &&& c.gpu_power_state == 0
    &&& c.dynamic_frequency == true
    &&& c.low_battery_threshold == 20
    &&& c.critical_battery_threshold == 10
    &&& c.show_battery_percentage == true
}

impl Default for PowerConfig {
    fn default() -> (c: Self)
        ensures
            is_default_power_config(c),
    {
        Self {
            power_profile: 0,
            reduce_on_battery: true,
            screen_timeout: 300,
            sleep_timeout: 30,
            cpu_governor: string_from_str("ondemand"),
            gpu_power_state: 0,
            dynamic_frequency: true,
            low_battery_threshold: 20,
            critical_battery_threshold: 10,
            show_battery_percentage: true,
        }
    }
}

/// Storage configuration
#[derive(Debug, Clone)]
pub struct StorageConfig {
    /// Cache size in MB
    pub cache_size: u32,
    /// Whether to use disk cache
    pub use_disk_cache: bool,
    /// Whether to compress temporary files
    pub compress_temp_files: bool,
    /// Auto-save interval in minutes (0 to disable)
    pub autosave_interval: u16,
    /// Maximum log file size in MB
    pub max_log_size: u32,
    /// How many days to keep logs
    pub log_retention_days: u8,
    /// Whether to use memory-mapped files where possible
    pub use_memory_mapped_files: bool,
    /// Whether to verify file integrity on load
    pub verify_file_integrity: bool,
    /// IO scheduler (e.g., "cfq", "noop", "deadline")
    pub io_scheduler: String,
    /// Whether to sync data immediately
    pub sync_immediately: bool,
}

/// `c` holds the default StorageConfig settings.
pub open spec fn is_default_storage_config(c: StorageConfig) -> bool {
    &&& c.cache_size == 512
    &&& c.use_disk_cache == true
    &&& c.compress_temp_files == false
    &&& c.autosave_interval == 5
    &&& c.max_log_size == 10
    &&& c.log_retention_days == 7
    &&& c.use_memory_mapped_files == true
    &&& c.verify_file_integrity == false
    &&& c.io_scheduler@ == "cfq"@
    &&& c.sync_immediately == false
}

impl Default for StorageConfig {
    fn default() -> (c: Self)
        ensures
            is_default_storage_config(c),
    {
        Self {
            cache_size: 512,
            use_disk_cache: true,
            compress_temp_files: false,
            autosave_interval: 5,
            max_log_size: 10,
            log_retention_days: 7,
            use_memory_mapped_files: true,
            verify_file_integrity: false,
            io_scheduler: string_from_str("cfq"),
            sync_immediately: false,
        }
    }
}

/// Window layout configuration
#[derive(Debug)]
pub struct WindowLayoutConfig {
    /// Stored window positions and sizes
    pub windows: Vec<WindowPosition>,
    /// Default window theme
    pub default_theme: String,
    /// Whether to remember window positions
    pub remember_positions: bool,
    /// Whether to use window animations
    pub use_animations: bool,
    /// Window border thickness
    pub border_thickness: u8,
    /// Window corner radius
    pub corner_radius: u8,
    /// Whether to allow transparent windows
    pub allow_transparency: bool,
    /// Default window opacity (0-255)
    pub default_opacity: u8,
}

/// `c` holds the default WindowLayoutConfig settings.
pub open spec fn is_default_window_layout_config(c: WindowLayoutConfig) -> bool {
    &&& c.windows@.len() == 0
    &&& c.default_theme@ == "default"@
    &&& c.remember_positions == true
    &&& c.use_animations == true
    &&& c.border_thickness == 1
    &&& c.corner_radius == 3
    &&& c.allow_transparency == true
    &&& c.default_opacity == 255
}

impl Default for WindowLayoutConfig {
    fn default() -> (c: Self)
        ensures
            is_default_window_layout_config(c),
    {
        Self {
            windows: Vec::new(),
            default_theme: string_from_str("default"),
            remember_positions: true,
            use_animations: true,
            border_thickness: 1,
            corner_radius: 3,
            allow_transparency: true,
            default_opacity: 255,
        }
    }
}

/// Notification settings
#[derive(Debug, Clone)]
pub struct NotificationSettings {
    /// Whether notifications are enabled
    pub enabled: bool,
    /// Whether to show notifications in fullscreen mode
    pub show_in_fullscreen: bool,
    /// Notification display duration in seconds
    pub duration: u8,
    /// Whether to play sound on notification
    pub play_sound: bool,
    /// Maximum number of notifications to show at once
    pub max_visible: u8,
}

/// `c` holds the default NotificationSettings settings.
pub open spec fn is_default_notification_settings(c: NotificationSettings) -> bool {
    &&& c.enabled == true
    &&& c.show_in_fullscreen == false
    &&& c.duration == 5
    &&& c.play_sound == true
    &&& c.max_visible == 3
}

impl Default for NotificationSettings {
    fn default() -> (c: Self)
        ensures
            is_default_notification_settings(c),
    {
        Self {
            enabled: true,
            show_in_fullscreen: false,
            duration: 5,
            play_sound: true,
            max_visible: 3,
        }
    }
}

/// Individual window position
#[derive(Debug)]
pub struct WindowPosition {
    /// Window ID or name
    pub id: String,
    /// Position (x, y)
    pub position: (i32, i32),
    /// Size (width, height)
    pub size: (u32, u32),
    /// Whether window is minimized
    pub minimized: bool,
    /// Whether window is maximized
    pub maximized: bool,
    /// Window z-order (lower numbers are more in front)
    pub z_order: u16,
}

/// Custom key binding
#[derive(Debug, Clone)]
pub struct KeyBinding {
    /// Action name
    pub action: String,
    /// Key code
    pub key_code: u16,
    /// Modifier keys
    pub modifiers: u8,
}

/// Config error types
#[derive(Debug, Clone, Copy)]
pub enum ConfigError {
    IoError(&'static str),
    ParseError(&'static str),
    InvalidValue(&'static str),
}

/// The text of a configuration error.
pub open spec fn config_error_text(e: ConfigError) -> Seq<char> {
    match e {
        ConfigError::IoError(m) => "I/O Error: "@ + m@,
        ConfigError::ParseError(m) => "Parse Error: "@ + m@,
        ConfigError::InvalidValue(m) => "Invalid Value: "@ + m@,
    }
}

impl ConfigError {
    /// The error as text, such as "I/O Error: Failed to read config file".
    pub fn message(&self) -> (s: String)
        ensures
            s@ == config_error_text(*self),
    {
        match self {
            ConfigError::IoError(m) => {
                let mut s = string_from_str("I/O Error: ");
                string_push_str(&mut s, m);
                s
            },
            ConfigError::ParseError(m) => {
                let mut s = string_from_str("Parse Error: ");
                string_push_str(&mut s, m);
                s
            },
            ConfigError::InvalidValue(m) => {
                let mut s = string_from_str("Invalid Value: ");
                string_push_str(&mut s, m);
                s
            },
        }
    }
}

/// The GPU, process and power settings of the performance profile: medium
/// quality without ray tracing, high priority on every core, full power.
pub open spec fn performance_tuned(gpu: GpuConfig, perf: PerformanceConfig, power: PowerConfig,
    gpu2: GpuConfig, perf2: PerformanceConfig, power2: PowerConfig) -> bool
{
    &&& gpu2.texture_quality == 1 && gpu2.shadow_quality == 1 && gpu2.antialiasing == 1
    &&& !gpu2.ray_tracing && gpu2.shader_quality == 1
    &&& gpu2.preferred_gpu@ == gpu.preferred_gpu@ && gpu2.anisotropic_filtering == gpu.anisotropic_filtering
    &&& gpu2.tessellation == gpu.tessellation && gpu2.vram_limit == gpu.vram_limit
    &&& gpu2.compute_shaders == gpu.compute_shaders && gpu2.async_compute == gpu.async_compute
    &&& perf2 == (PerformanceConfig {
        process_priority: 2,
        use_all_cores: true,
        preload_assets: true,
        optimize_for_latency: true,
        aggressive_optimization: true,
        ..perf
    })
    &&& power2.power_profile == 1 && power2.cpu_governor@ == "performance"@ && power2.gpu_power_state == 1
    &&& !power2.dynamic_frequency
    &&& power2.reduce_on_battery == power.reduce_on_battery && power2.screen_timeout == power.screen_timeout
    &&& power2.sleep_timeout == power.sleep_timeout
    &&& power2.low_battery_threshold == power.low_battery_threshold
    &&& power2.critical_battery_threshold == power.critical_battery_threshold
    &&& power2.show_battery_percentage == power.show_battery_percentage
}

/// The settings of the power-saving profile: lowest quality, low priority
/// capped at 70% of the processor, powersave governor and short timeouts.
pub open spec fn power_saving_tuned(gpu: GpuConfig, perf: PerformanceConfig, power: PowerConfig,
    gpu2: GpuConfig, perf2: PerformanceConfig, power2: PowerConfig) -> bool
{
    &&& gpu2.texture_quality == 0 && gpu2.shadow_quality == 0 && gpu2.antialiasing == 0
    &&& !gpu2.ray_tracing && gpu2.shader_quality == 0
    &&& gpu2.preferred_gpu@ == gpu.preferred_gpu@ && gpu2.anisotropic_filtering == gpu.anisotropic_filtering
    &&& gpu2.tessellation == gpu.tessellation && gpu2.vram_limit == gpu.vram_limit
    &&& gpu2.compute_shaders == gpu.compute_shaders && gpu2.async_compute == gpu.async_compute
    &&& perf2 == (PerformanceConfig {
        process_priority: 0,
        max_cpu_usage: 70,
        preload_assets: false,
        optimize_for_latency: false,
        ..perf
    })
    &&& power2.power_profile == 2 && power2.cpu_governor@ == "powersave"@ && power2.gpu_power_state == 2
    &&& power2.screen_timeout == 60 && power2.sleep_timeout == 5
    &&& power2.reduce_on_battery == power.reduce_on_battery && power2.dynamic_frequency == power.dynamic_frequency
    &&& power2.low_battery_threshold == power.low_battery_threshold
    &&& power2.critical_battery_threshold == power.critical_battery_threshold
    &&& power2.show_battery_percentage == power.show_battery_percentage
}

/// The GPU, process and power part of `SystemConfig::optimize_performance`.
pub fn tune_for_performance(gpu: &mut GpuConfig, performance: &mut PerformanceConfig, power: &mut PowerConfig)
    ensures
        performance_tuned(*old(gpu), *old(performance), *old(power), *final(gpu), *final(performance), *final(power)),
{
    gpu.texture_quality = 1;
    gpu.shadow_quality = 1;
    gpu.antialiasing = 1;
    gpu.ray_tracing = false;
    gpu.shader_quality = 1;
    performance.process_priority = 2;
    performance.use_all_cores = true;
    performance.preload_assets = true;
    performance.optimize_for_latency = true;
    performance.aggressive_optimization = true;
    power.power_profile = 1;
    power.cpu_governor = string_from_str("performance");
    power.gpu_power_state = 1;
    power.dynamic_frequency = false;
}

/// The GPU, process and power part of `SystemConfig::optimize_power`.
pub fn tune_for_power_saving(gpu: &mut GpuConfig, performance: &mut PerformanceConfig, power: &mut PowerConfig)
    ensures
        power_saving_tuned(*old(gpu), *old(performance), *old(power), *final(gpu), *final(performance), *final(power)),
{
    gpu.texture_quality = 0;
    gpu.shadow_quality = 0;
    gpu.antialiasing = 0;
    gpu.ray_tracing = false;
    gpu.shader_quality = 0;
    performance.process_priority = 0;
    performance.max_cpu_usage = 70;
    performance.preload_assets = false;
    performance.optimize_for_latency = false;
    power.power_profile = 2;
    power.cpu_governor = string_from_str("powersave");
    power.gpu_power_state = 2;
    power.screen_timeout = 60;
    power.sleep_timeout = 5;
}

/// The names of the built-in profiles.
pub fn available_profiles() -> (r: Vec<String>)
    ensures
        strings_view(r@) == seq!["Balanced"@, "Performance"@, "Power Saving"@],
{
    let r = vec![string_from_str("Balanced"), string_from_str("Performance"), string_from_str("Power Saving")];
    assert(strings_view(r@) =~= seq!["Balanced"@, "Performance"@, "Power Saving"@]);
    r
}

proof fn lemma_nothing_mounted(fss: Seq<Filesystem>)
    requires
        fss.len() == 0,
    ensures
        first_index(fss, mounted()) is None,
{
    assert(!exists|i: int| first_at(fss, mounted(), i));
}

/// The directory the system configuration is kept in.
pub const CONFIG_DIR: &'static str = "/etc/os_gaming";

/// The file the encoded system configuration is kept in.
pub const CONFIG_PATH: &'static str = "/etc/os_gaming/config.bin";

/// Store the encoded system configuration: the configuration directory is
/// created (a failure there is only a warning), the file opened and the
/// bytes written until all are out, a write of nothing or a failed write
/// ending it with an error. The filesystem manager it works through is a
/// new one, with no filesystem mounted, so the file never opens.
#[verifier::loop_isolation(false)]
pub fn save_config_bytes(bytes: &[u8]) -> (r: Result<(), ConfigError>)
    ensures
        r == Err::<(), ConfigError>(ConfigError::IoError("Failed to open config file for writing")),
{
    let mut fs_manager = FilesystemManager::new();
    proof {
        lemma_nothing_mounted(fs_manager.filesystems());
    }
    let _ = fs_manager.create_directory(CONFIG_DIR);
    match fs_manager.open_file(CONFIG_PATH, true) {
        Ok(mut file) => {
            let mut position: usize = 0;
            while position < bytes.len()
                invariant
                    fs_manager.wf(),
                    fs_manager.filesystems().len() == 0,
                    position <= bytes@.len(),
                    file@.position == 0,
                decreases bytes@.len() - position,
            {
                let rest = vstd::slice::slice_subrange(bytes, position, bytes.len());
                match file.write(rest, &mut fs_manager) {
                    Ok(written) => {
                        if written == 0 {
                            return Err(ConfigError::IoError("Failed to write config file (wrote 0 bytes)"));
                        }
                        position = position + written;
                    },
                    Err(_) => {
                        return Err(ConfigError::IoError("Failed to write config file"));
                    },
                }
            }
            Ok(())
        },
        Err(_) => Err(ConfigError::IoError("Failed to open config file for writing")),
    }
}

/// Read the encoded system configuration: `None` where the file does not
/// open (the caller then falls back to the defaults), else its bytes, read
/// in blocks of 4096 until a read gives nothing, a failed read ending it
/// with an error. The filesystem manager it works through is a new one,
/// with no filesystem mounted, so the file never opens.
#[verifier::loop_isolation(false)]
pub fn load_config_bytes() -> (r: Result<Option<Vec<u8>>, ConfigError>)
    ensures
        r matches Ok(None),
{
    let mut fs_manager = FilesystemManager::new();
    proof {
        lemma_nothing_mounted(fs_manager.filesystems());
    }
    match fs_manager.open_file(CONFIG_PATH, true) {
        Ok(mut file) => {
            let mut buffer: Vec<u8> = Vec::new();
            let mut read_buf: Vec<u8> = vec![0u8; 4096];
            loop
                invariant
                    fs_manager.wf(),
                    fs_manager.filesystems().len() == 0,
                decreases file@.size - file@.position,
            {
                match file.read(read_buf.as_mut_slice(), &mut fs_manager) {
                    Ok(bytes_read) => {
                        if bytes_read == 0 {
                            break;
                        }
                        let got = vstd::slice::slice_subrange(read_buf.as_slice(), 0, bytes_read);
                        buffer.extend_from_slice(got);
                    },
                    Err(_) => {
                        return Err(ConfigError::IoError("Failed to read config file"));
                    },
                }
            }
            Ok(Some(buffer))
        },
        Err(_) => Ok(None),
    }
}

} // verus!
