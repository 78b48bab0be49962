//! Text of the desktop clock: its translated labels, and readable
//! descriptions of NTP header fields.
use vstd::prelude::*;

verus! {

/// The languages of the desktop clock's labels.
#[derive(Clone, Copy, Debug, PartialEq, Eq, Structural)]
pub enum Language {
    English,
    ChineseSimplified,
    ChineseTraditional,
}

/// Every label of the desktop clock, in one language. A label may hold `{}`
/// or `{:.N}` placeholders, filled in by `crate::clock_text::fill_template`.
#[derive(Clone, Copy, Debug)]
pub struct Strings {
    pub title: &'static str,
    pub always_on_top: &'static str,
    pub theme: &'static str,
    pub language: &'static str,
    pub server: &'static str,
    pub add: &'static str,
    pub edit: &'static str,
    pub remove: &'static str,
    pub active: &'static str,
    pub edit_profile: &'static str,
    pub name: &'static str,
    pub host: &'static str,
    pub ip: &'static str,
    pub save: &'static str,
    pub cancel: &'static str,
    pub waiting: &'static str,
    pub error: &'static str,
    pub deviation: &'static str,
    pub range: &'static str,
    pub jitter: &'static str,
    pub std_dev: &'static str,
    pub freq_error: &'static str,
    pub packet_loss: &'static str,
    pub clock_status: &'static str,
    pub stratum: &'static str,
    pub root_delay: &'static str,
    pub root_dispersion: &'static str,
    pub leap: &'static str,
    pub poll: &'static str,
    pub precision: &'static str,
    pub ref_id: &'static str,
    pub ref_time: &'static str,
    pub ref_time_na: &'static str,
    pub ping: &'static str,
    pub sent: &'static str,
    pub received: &'static str,
    pub requests: &'static str,
    pub utc: &'static str,
    pub local: &'static str,
    pub epoch: &'static str,
    pub origin: &'static str,
    pub receive: &'static str,
    pub transmit: &'static str,
    pub destination: &'static str,
    pub true_rtt: &'static str,
    pub true_offset: &'static str,
    pub ntp_version: &'static str,
    pub ntp_mode: &'static str,
    pub root_distance: &'static str,
    pub peer_state: &'static str,
    pub synchronized: &'static str,
    pub unsynchronized: &'static str,
    pub estimated: &'static str,
    pub leap_none: &'static str,
    pub leap_61: &'static str,
    pub leap_59: &'static str,
    pub leap_alarm: &'static str,
    pub stratum_unspec: &'static str,
    pub stratum_primary: &'static str,
    pub stratum_secondary: &'static str,
    pub stratum_unsync: &'static str,
    pub theme_light: &'static str,
    pub theme_dark: &'static str,
    pub theme_auto: &'static str,
    pub lang_english: &'static str,
    pub lang_chinese_simplified: &'static str,
    pub lang_chinese_traditional: &'static str,
    pub peer_sys: &'static str,
    pub unsafe_time: &'static str,
    pub ref_id_tooltip: &'static str,
    pub calibration: &'static str,
    pub cal_enable: &'static str,
    pub cal_countdown: &'static str,
    pub cal_mark: &'static str,
    pub cal_marked: &'static str,
    pub cal_hint: &'static str,
    pub net_identity: &'static str,
    pub server_ip: &'static str,
    pub your_ip: &'static str,
    pub server_loc: &'static str,
    pub your_loc: &'static str,
    pub coords: &'static str,
    pub isp: &'static str,
    pub peer_disp: &'static str,
    pub peer_warn: &'static str,
    pub tof: &'static str,
    pub kod_banner: &'static str,
    pub tab_time: &'static str,
    pub tab_server: &'static str,
    pub tab_network: &'static str,
    pub tab_calibration: &'static str,
    pub tab_settings: &'static str,
    pub time_format: &'static str,
    pub hour_12: &'static str,
    pub hour_24: &'static str,
    pub text_size: &'static str,
    pub size_small: &'static str,
    pub size_normal: &'static str,
    pub size_big: &'static str,
    pub drift_test: &'static str,
    pub drift_start: &'static str,
    pub drift_stop: &'static str,
    pub drift_duration: &'static str,
    pub drift_running: &'static str,
    pub drift_result: &'static str,
    pub drift_fast: &'static str,
    pub drift_slow: &'static str,
    pub drift_crystal: &'static str,
    pub hide_all: &'static str,
    pub show_all: &'static str,
    pub window_size: &'static str,
    pub fps: &'static str,
    pub visibility: &'static str,
    pub tab_global: &'static str,
    pub search: &'static str,
    pub hostname: &'static str,
    pub strategy: &'static str,
    pub category: &'static str,
    pub offset: &'static str,
    pub server_time: &'static str,
    pub device_time: &'static str,
    pub extensions: &'static str,
    pub extensions_none: &'static str,
    pub set_time: &'static str,
    pub set_time_launched: &'static str,
    pub set_time_failed: &'static str,
    pub set_time_na: &'static str,
}

impl Strings {
    /// The English labels.
    pub open spec fn english_table() -> Strings {
        Strings {
            title: "NTP Clock",
            always_on_top: "Always on top",
            theme: "Theme:",
            language: "Language:",
            server: "Server:",
            add: "Add",
            edit: "Edit",
            remove: "Remove",
            active: "Active: {} ({})",
            edit_profile: "Edit server profile",
            name: "Name:",
            host: "Host:",
            ip: "IP:",
            save: "Save",
            cancel: "Cancel",
            waiting: "Waiting for NTP response...",
            error: "Error: {}",
            deviation: "Deviation : {} (server vs system clock)",
            range: "Range     : {} .. {}",
            jitter: "Jitter          : {:.3} ms (ping std dev)",
            std_dev: "Std deviation   : {:.3} ms (offset stability)",
            freq_error: "Frequency error : {} (crystal drift)",
            packet_loss: "Packet loss     : {:.2}%",
            clock_status: "Clock status    : {}",
            stratum: "Stratum          : {} - {}",
            root_delay: "Root delay       : {:.3} ms",
            root_dispersion: "Root dispersion  : {:.3} ms",
            leap: "Leap indicator   : {} - {}",
            poll: "Poll interval    : {:.0} s",
            precision: "Precision        : {:.3} ms",
            ref_id: "Reference ID    : {}",
            ref_time: "Reference time  : {}",
            ref_time_na: "Reference time  : n/a",
            ping: "Ping      : {:.1} ms  (min {:.1} / avg {:.1} / max {:.1})",
            sent: "Sent      : {} total, {}",
            received: "Received  : {} total, {}",
            requests: "Requests  : {} sent, {} responses",
            utc: "UTC   : {}",
            local: "Local : {}",
            epoch: "Epoch : {}",
            origin: "Origin (T1)     : {}",
            receive: "Receive (T2)    : {}",
            transmit: "Transmit (T3)   : {}",
            destination: "Destination (T4): {}",
            true_rtt: "True RTT         : {:.3} ms",
            true_offset: "True offset      : {}",
            ntp_version: "NTP version      : {}",
            ntp_mode: "NTP mode         : {}",
            root_distance: "Root distance    : {:.3} ms",
            peer_state: "Peer state       : {}",
            synchronized: "Synchronized",
            unsynchronized: "Unsynchronized",
            estimated: "Estimated (fallback)",
            leap_none: "No warning",
            leap_61: "Last minute has 61 seconds",
            leap_59: "Last minute has 59 seconds",
            leap_alarm: "Alarm (clock not synchronized)",
            stratum_unspec: "Unspecified / Kiss-o'-Death",
            stratum_primary: "Primary reference (atomic clock / GPS)",
            stratum_secondary: "Secondary reference (stratum {})",
            stratum_unsync: "Unsynchronized",
            theme_light: "Light",
            theme_dark: "Dark",
            theme_auto: "Auto",
            lang_english: "English",
            lang_chinese_simplified: "简体中文",
            lang_chinese_traditional: "繁體中文",
            peer_sys: "Sys.Peer",
            unsafe_time: "⚠ Time unsafe (root distance > 1.5 s)",
            ref_id_tooltip: "Reference source: GNSS/GPS, CESM (caesium), RUBY (rubidium), or an upstream IP for stratum 2+.",
            calibration: "Calibration",
            cal_enable: "Beep at next minute",
            cal_countdown: "Next beep in {:.1} s",
            cal_mark: "Mark",
            cal_marked: "Marked at: {}",
            cal_hint: "Set your watch to the minute, wait for the beep, then press Mark.",
            net_identity: "Network identity & location",
            server_ip: "Server IP : {}",
            your_ip: "Your IP   : {}",
            server_loc: "Server location : {}",
            your_loc: "Your location : {}",
            coords: "Coordinates : {:.4}, {:.4}",
            isp: "ISP : {}",
            peer_disp: "Peer dispersion : {:.3} ms",
            peer_warn: "⚠ Time quality degrading (peer dispersion high)",
            tof: "Upstream : {:.1} ms | Downstream : {:.1} ms",
            kod_banner: "⚠ Server rejected request: {}",
            tab_time: "Time",
            tab_server: "Server",
            tab_network: "Network",
            tab_calibration: "Calibration",
            tab_settings: "Settings",
            time_format: "Time format:",
            hour_12: "12-hour",
            hour_24: "24-hour",
            text_size: "Text size:",
            size_small: "Small",
            size_normal: "Normal",
            size_big: "Big",
            drift_test: "Drift test",
            drift_start: "Start",
            drift_stop: "Stop",
            drift_duration: "Duration:",
            drift_running: "Measuring... {:.0}s remaining",
            drift_result: "Clock ran {:.1} ms {} over {:.0} s ({:+.1} ppm)",
            drift_fast: "fast",
            drift_slow: "slow",
            drift_crystal: "Estimated crystal error: {:+.1} ppm",
            hide_all: "Hide all",
            show_all: "Show all",
            window_size: "Window size: {} x {}",
            fps: "FPS: {:.0}",
            visibility: "Visibility",
            tab_global: "Global",
            search: "Search:",
            hostname: "Hostname",
            strategy: "Strategy",
            category: "Category",
            offset: "Offset",
            server_time: "Server time",
            device_time: "Device time",
            extensions: "Extensions",
            extensions_none: "None",
            set_time: "Set system time (elevated)",
            set_time_launched: "Elevation prompt launched.",
            set_time_failed: "Could not launch elevated process.",
            set_time_na: "No server time available yet.",
        }
    }

    /// The simplified Chinese labels.
    pub open spec fn chinese_simplified_table() -> Strings {
        Strings {
            title: "NTP 时钟",
            always_on_top: "始终置顶",
            theme: "主题：",
            language: "语言：",
            server: "服务器：",
            add: "添加",
            edit: "编辑",
            remove: "删除",
            active: "当前：{} ({})",
            edit_profile: "编辑服务器配置",
            name: "名称：",
            host: "主机：",
            ip: "IP：",
            save: "保存",
            cancel: "取消",
            waiting: "等待 NTP 响应...",
            error: "错误：{}",
            deviation: "偏差：{}（服务器与系统时钟）",
            range: "范围：{} .. {}",
            jitter: "抖动：{:.3} 毫秒（ping 标准差）",
            std_dev: "标准差：{:.3} 毫秒（偏移稳定性）",
            freq_error: "频率误差：{}（晶振漂移）",
            packet_loss: "丢包率：{:.2}%",
            clock_status: "时钟状态：{}",
            stratum: "层级：{} - {}",
            root_delay: "根延迟：{:.3} 毫秒",
            root_dispersion: "根分散：{:.3} 毫秒",
            leap: "闰秒指示：{} - {}",
            poll: "轮询间隔：{:.0} 秒",
            precision: "精度：{:.3} 毫秒",
            ref_id: "参考 ID：{}",
            ref_time: "参考时间：{}",
            ref_time_na: "参考时间：无",
            ping: "Ping：{:.1} 毫秒（最小 {:.1} / 平均 {:.1} / 最大 {:.1}）",
            sent: "发送：{} 总计，{}",
            received: "接收：{} 总计，{}",
            requests: "请求：{} 发送，{} 响应",
            utc: "UTC：{}",
            local: "本地：{}",
            epoch: "纪元：{}",
            origin: "起点 (T1)：{}",
            receive: "接收 (T2)：{}",
            transmit: "发送 (T3)：{}",
            destination: "终点 (T4)：{}",
            true_rtt: "真实 RTT：{:.3} 毫秒",
            true_offset: "真实偏移：{}",
            ntp_version: "NTP 版本：{}",
            ntp_mode: "NTP 模式：{}",
            root_distance: "根距离：{:.3} 毫秒",
            peer_state: "对等状态：{}",
            synchronized: "已同步",
            unsynchronized: "未同步",
            estimated: "估算（回退）",
            leap_none: "无警告",
            leap_61: "最后一分钟有 61 秒",
            leap_59: "最后一分钟有 59 秒",
            leap_alarm: "警报（时钟未同步）",
            stratum_unspec: "未指定 / Kiss-o'-Death",
            stratum_primary: "主参考（原子钟 / GPS）",
            stratum_secondary: "次参考（层级 {}）",
            stratum_unsync: "未同步",
            theme_light: "浅色",
            theme_dark: "深色",
            theme_auto: "自动",
            lang_english: "英语",
            lang_chinese_simplified: "简体中文",
            lang_chinese_traditional: "繁體中文",
            peer_sys: "系统对等",
            unsafe_time: "⚠ 时间不安全（根距离 > 1.5 秒）",
            ref_id_tooltip: "参考源：GNSS/GPS、CESM（铯）、RUBY（铷），或层级 2+ 的上游 IP。",
            calibration: "校准",
            cal_enable: "在下一分钟响铃",
            cal_countdown: "下次响铃在 {:.1} 秒",
            cal_mark: "标记",
            cal_marked: "标记时间：{}",
            cal_hint: "将手表设为该分钟，等待响铃，然后按标记。",
            net_identity: "网络身份与位置",
            server_ip: "服务器 IP：{}",
            your_ip: "您的 IP：{}",
            server_loc: "服务器位置：{}",
            your_loc: "您的位置：{}",
            coords: "坐标：{:.4}, {:.4}",
            isp: "ISP：{}",
            peer_disp: "对等分散：{:.3} 毫秒",
            peer_warn: "⚠ 时间质量下降（对等分散过高）",
            tof: "上行：{:.1} 毫秒 | 下行：{:.1} 毫秒",
            kod_banner: "⚠ 服务器拒绝请求：{}",
            tab_time: "时间",
            tab_server: "服务器",
            tab_network: "网络",
            tab_calibration: "校准",
            tab_settings: "设置",
            time_format: "时间格式：",
            hour_12: "12 小时",
            hour_24: "24 小时",
            text_size: "文字大小：",
            size_small: "小",
            size_normal: "正常",
            size_big: "大",
            drift_test: "漂移测试",
            drift_start: "开始",
            drift_stop: "停止",
            drift_duration: "时长：",
            drift_running: "测量中... 剩余 {:.0} 秒",
            drift_result: "时钟在 {:.0} 秒内{}了 {:.1} 毫秒（{:+.1} ppm）",
            drift_fast: "快",
            drift_slow: "慢",
            drift_crystal: "估算晶振误差：{:+.1} ppm",
            hide_all: "全部隐藏",
            show_all: "全部显示",
            window_size: "窗口大小：{} x {}",
            fps: "FPS：{:.0}",
            visibility: "可见性",
            tab_global: "全球",
            search: "搜索：",
            hostname: "主机名",
            strategy: "同步策略",
            category: "类别",
            offset: "偏移",
            server_time: "服务器时间",
            device_time: "设备时间",
            extensions: "扩展字段",
            extensions_none: "无",
            set_time: "设置系统时间（需提升权限）",
            set_time_launched: "已启动提升权限提示。",
            set_time_failed: "无法启动提升权限进程。",
            set_time_na: "尚无服务器时间。",
        }
    }

    /// The traditional Chinese labels.
    pub open spec fn chinese_traditional_table() -> Strings {
        Strings {
            title: "NTP 時鐘",
            always_on_top: "始終置頂",
            theme: "主題：",
            language: "語言：",
            server: "伺服器：",
            add: "新增",
            edit: "編輯",
            remove: "刪除",
            active: "目前：{} ({})",
            edit_profile: "編輯伺服器設定",
            name: "名稱：",
            host: "主機：",
            ip: "IP：",
            save: "儲存",
            cancel: "取消",
            waiting: "等待 NTP 回應...",
            error: "錯誤：{}",
            deviation: "偏差：{}（伺服器與系統時鐘）",
            range: "範圍：{} .. {}",
            jitter: "抖動：{:.3} 毫秒（ping 標準差）",
            std_dev: "標準差：{:.3} 毫秒（偏移穩定性）",
            freq_error: "頻率誤差：{}（晶振漂移）",
            packet_loss: "封包遺失率：{:.2}%",
            clock_status: "時鐘狀態：{}",
            stratum: "層級：{} - {}",
            root_delay: "根延遲：{:.3} 毫秒",
            root_dispersion: "根分散：{:.3} 毫秒",
            leap: "閏秒指示：{} - {}",
            poll: "輪詢間隔：{:.0} 秒",
            precision: "精確度：{:.3} 毫秒",
            ref_id: "參考 ID：{}",
            ref_time: "參考時間：{}",
            ref_time_na: "參考時間：無",
            ping: "Ping：{:.1} 毫秒（最小 {:.1} / 平均 {:.1} / 最大 {:.1}）",
            sent: "傳送：{} 總計，{}",
            received: "接收：{} 總計，{}",
            requests: "請求：{} 傳送，{} 回應",
            utc: "UTC：{}",
            local: "本機：{}",
            epoch: "紀元：{}",
            origin: "起點 (T1)：{}",
            receive: "接收 (T2)：{}",
            transmit: "傳送 (T3)：{}",
            destination: "終點 (T4)：{}",
            true_rtt: "真實 RTT：{:.3} 毫秒",
            true_offset: "真實偏移：{}",
            ntp_version: "NTP 版本：{}",
            ntp_mode: "NTP 模式：{}",
            root_distance: "根距離：{:.3} 毫秒",
            peer_state: "對等狀態：{}",
            synchronized: "已同步",
            unsynchronized: "未同步",
            estimated: "估算（回退）",
            leap_none: "無警告",
            leap_61: "最後一分鐘有 61 秒",
            leap_59: "最後一分鐘有 59 秒",
            leap_alarm: "警報（時鐘未同步）",
            stratum_unspec: "未指定 / Kiss-o'-Death",
            stratum_primary: "主參考（原子鐘 / GPS）",
            stratum_secondary: "次參考（層級 {}）",
            stratum_unsync: "未同步",
            theme_light: "淺色",
            theme_dark: "深色",
            theme_auto: "自動",
            lang_english: "英語",
            lang_chinese_simplified: "簡體中文",
            lang_chinese_traditional: "繁體中文",
            peer_sys: "系統對等",
            unsafe_time: "⚠ 時間不安全（根距離 > 1.5 秒）",
            ref_id_tooltip: "參考源：GNSS/GPS、CESM（銫）、RUBY（銣），或層級 2+ 的上游 IP。",
            calibration: "校準",
            cal_enable: "在下一分鐘響鈴",
            cal_countdown: "下次響鈴在 {:.1} 秒",
            cal_mark: "標記",
            cal_marked: "標記時間：{}",
            cal_hint: "將手錶設為該分鐘，等待響鈴，然後按標記。",
            net_identity: "網路身分與位置",
            server_ip: "伺服器 IP：{}",
            your_ip: "您的 IP：{}",
            server_loc: "伺服器位置：{}",
            your_loc: "您的位置：{}",
            coords: "座標：{:.4}, {:.4}",
            isp: "ISP：{}",
            peer_disp: "對等分散：{:.3} 毫秒",
            peer_warn: "⚠ 時間品質下降（對等分散過高）",
            tof: "上行：{:.1} 毫秒 | 下行：{:.1} 毫秒",
            kod_banner: "⚠ 伺服器拒絕請求：{}",
            tab_time: "時間",
            tab_server: "伺服器",
            tab_network: "網路",
            tab_calibration: "校準",
            tab_settings: "設定",
            time_format: "時間格式：",
            hour_12: "12 小時",
            hour_24: "24 小時",
            text_size: "文字大小：",
            size_small: "小",
            size_normal: "正常",
            size_big: "大",
            drift_test: "漂移測試",
            drift_start: "開始",
            drift_stop: "停止",
            drift_duration: "時長：",
            drift_running: "測量中... 剩餘 {:.0} 秒",
            drift_result: "時鐘在 {:.0} 秒內{}了 {:.1} 毫秒（{:+.1} ppm）",
            drift_fast: "快",
            drift_slow: "慢",
            drift_crystal: "估算晶振誤差：{:+.1} ppm",
            hide_all: "全部隱藏",
            show_all: "全部顯示",
            window_size: "視窗大小：{} x {}",
            fps: "FPS：{:.0}",
            visibility: "可見性",
            tab_global: "全球",
            search: "搜尋：",
            hostname: "主機名",
            strategy: "同步策略",
            category: "類別",
            offset: "偏移",
            server_time: "伺服器時間",
            device_time: "裝置時間",
            extensions: "擴展欄位",
            extensions_none: "無",
            set_time: "設定系統時間（需提升權限）",
            set_time_launched: "已啟動提升權限提示。",
            set_time_failed: "無法啟動提升權限程序。",
            set_time_na: "尚無伺服器時間。",
        }
    }

    /// The labels of `lang`.
    pub open spec fn table(lang: Language) -> Strings {
        match lang {
            Language::English => Strings::english_table(),
            Language::ChineseSimplified => Strings::chinese_simplified_table(),
            Language::ChineseTraditional => Strings::chinese_traditional_table(),
        }
    }

    pub fn for_language(lang: Language) -> (s: Strings)
        ensures
            s == Strings::table(lang),
    {
        match lang {
            Language::English => Strings::english(),
            Language::ChineseSimplified => Strings::chinese_simplified(),
            Language::ChineseTraditional => Strings::chinese_traditional(),
        }
    }

    pub fn english() -> (s: Strings)
        ensures
            s == Strings::english_table(),
    {
        Strings {
            title: "NTP Clock",
            always_on_top: "Always on top",
            theme: "Theme:",
            language: "Language:",
            server: "Server:",
            add: "Add",
            edit: "Edit",
            remove: "Remove",
            active: "Active: {} ({})",
            edit_profile: "Edit server profile",
            name: "Name:",
            host: "Host:",
            ip: "IP:",
            save: "Save",
            cancel: "Cancel",
            waiting: "Waiting for NTP response...",
            error: "Error: {}",
            deviation: "Deviation : {} (server vs system clock)",
            range: "Range     : {} .. {}",
            jitter: "Jitter          : {:.3} ms (ping std dev)",
            std_dev: "Std deviation   : {:.3} ms (offset stability)",
            freq_error: "Frequency error : {} (crystal drift)",
            packet_loss: "Packet loss     : {:.2}%",
            clock_status: "Clock status    : {}",
            stratum: "Stratum          : {} - {}",
            root_delay: "Root delay       : {:.3} ms",
            root_dispersion: "Root dispersion  : {:.3} ms",
            leap: "Leap indicator   : {} - {}",
            poll: "Poll interval    : {:.0} s",
            precision: "Precision        : {:.3} ms",
            ref_id: "Reference ID    : {}",
            ref_time: "Reference time  : {}",
            ref_time_na: "Reference time  : n/a",
            ping: "Ping      : {:.1} ms  (min {:.1} / avg {:.1} / max {:.1})",
            sent: "Sent      : {} total, {}",
            received: "Received  : {} total, {}",
            requests: "Requests  : {} sent, {} responses",
            utc: "UTC   : {}",
            local: "Local : {}",
            epoch: "Epoch : {}",
            origin: "Origin (T1)     : {}",
            receive: "Receive (T2)    : {}",
            transmit: "Transmit (T3)   : {}",
            destination: "Destination (T4): {}",
            true_rtt: "True RTT         : {:.3} ms",
            true_offset: "True offset      : {}",
            ntp_version: "NTP version      : {}",
            ntp_mode: "NTP mode         : {}",
            root_distance: "Root distance    : {:.3} ms",
            peer_state: "Peer state       : {}",
            synchronized: "Synchronized",
            unsynchronized: "Unsynchronized",
            estimated: "Estimated (fallback)",
            leap_none: "No warning",
            leap_61: "Last minute has 61 seconds",
            leap_59: "Last minute has 59 seconds",
            leap_alarm: "Alarm (clock not synchronized)",
            stratum_unspec: "Unspecified / Kiss-o'-Death",
            stratum_primary: "Primary reference (atomic clock / GPS)",
            stratum_secondary: "Secondary reference (stratum {})",
            stratum_unsync: "Unsynchronized",
            theme_light: "Light",
            theme_dark: "Dark",
            theme_auto: "Auto",
            lang_english: "English",
            lang_chinese_simplified: "简体中文",
            lang_chinese_traditional: "繁體中文",
            peer_sys: "Sys.Peer",
            unsafe_time: "⚠ Time unsafe (root distance > 1.5 s)",
            ref_id_tooltip: "Reference source: GNSS/GPS, CESM (caesium), RUBY (rubidium), or an upstream IP for stratum 2+.",
            calibration: "Calibration",
            cal_enable: "Beep at next minute",
            cal_countdown: "Next beep in {:.1} s",
            cal_mark: "Mark",
            cal_marked: "Marked at: {}",
            cal_hint: "Set your watch to the minute, wait for the beep, then press Mark.",
            net_identity: "Network identity & location",
            server_ip: "Server IP : {}",
            your_ip: "Your IP   : {}",
            server_loc: "Server location : {}",
            your_loc: "Your location : {}",
            coords: "Coordinates : {:.4}, {:.4}",
            isp: "ISP : {}",
            peer_disp: "Peer dispersion : {:.3} ms",
            peer_warn: "⚠ Time quality degrading (peer dispersion high)",
            tof: "Upstream : {:.1} ms | Downstream : {:.1} ms",
            kod_banner: "⚠ Server rejected request: {}",
            tab_time: "Time",
            tab_server: "Server",
            tab_network: "Network",
            tab_calibration: "Calibration",
            tab_settings: "Settings",
            time_format: "Time format:",
            hour_12: "12-hour",
            hour_24: "24-hour",
            text_size: "Text size:",
            size_small: "Small",
            size_normal: "Normal",
            size_big: "Big",
            drift_test: "Drift test",
            drift_start: "Start",
            drift_stop: "Stop",
            drift_duration: "Duration:",
            drift_running: "Measuring... {:.0}s remaining",
            drift_result: "Clock ran {:.1} ms {} over {:.0} s ({:+.1} ppm)",
            drift_fast: "fast",
            drift_slow: "slow",
            drift_crystal: "Estimated crystal error: {:+.1} ppm",
            hide_all: "Hide all",
            show_all: "Show all",
            window_size: "Window size: {} x {}",
            fps: "FPS: {:.0}",
            visibility: "Visibility",
            tab_global: "Global",
            search: "Search:",
            hostname: "Hostname",
            strategy: "Strategy",
            category: "Category",
            offset: "Offset",
            server_time: "Server time",
            device_time: "Device time",
            extensions: "Extensions",
            extensions_none: "None",
            set_time: "Set system time (elevated)",
            set_time_launched: "Elevation prompt launched.",
            set_time_failed: "Could not launch elevated process.",
            set_time_na: "No server time available yet.",
        }
    }

    pub fn chinese_simplified() -> (s: Strings)
        ensures
            s == Strings::chinese_simplified_table(),
    {
        Strings {
            title: "NTP 时钟",
            always_on_top: "始终置顶",
            theme: "主题：",
            language: "语言：",
            server: "服务器：",
            add: "添加",
            edit: "编辑",
            remove: "删除",
            active: "当前：{} ({})",
            edit_profile: "编辑服务器配置",
            name: "名称：",
            host: "主机：",
            ip: "IP：",
            save: "保存",
            cancel: "取消",
            waiting: "等待 NTP 响应...",
            error: "错误：{}",
            deviation: "偏差：{}（服务器与系统时钟）",
            range: "范围：{} .. {}",
            jitter: "抖动：{:.3} 毫秒（ping 标准差）",
            std_dev: "标准差：{:.3} 毫秒（偏移稳定性）",
            freq_error: "频率误差：{}（晶振漂移）",
            packet_loss: "丢包率：{:.2}%",
            clock_status: "时钟状态：{}",
            stratum: "层级：{} - {}",
            root_delay: "根延迟：{:.3} 毫秒",
            root_dispersion: "根分散：{:.3} 毫秒",
            leap: "闰秒指示：{} - {}",
            poll: "轮询间隔：{:.0} 秒",
            precision: "精度：{:.3} 毫秒",
            ref_id: "参考 ID：{}",
            ref_time: "参考时间：{}",
            ref_time_na: "参考时间：无",
            ping: "Ping：{:.1} 毫秒（最小 {:.1} / 平均 {:.1} / 最大 {:.1}）",
            sent: "发送：{} 总计，{}",
            received: "接收：{} 总计，{}",
            requests: "请求：{} 发送，{} 响应",
            utc: "UTC：{}",
            local: "本地：{}",
            epoch: "纪元：{}",
            origin: "起点 (T1)：{}",
            receive: "接收 (T2)：{}",
            transmit: "发送 (T3)：{}",
            destination: "终点 (T4)：{}",
            true_rtt: "真实 RTT：{:.3} 毫秒",
            true_offset: "真实偏移：{}",
            ntp_version: "NTP 版本：{}",
            ntp_mode: "NTP 模式：{}",
            root_distance: "根距离：{:.3} 毫秒",
            peer_state: "对等状态：{}",
            synchronized: "已同步",
            unsynchronized: "未同步",
            estimated: "估算（回退）",
            leap_none: "无警告",
            leap_61: "最后一分钟有 61 秒",
            leap_59: "最后一分钟有 59 秒",
            leap_alarm: "警报（时钟未同步）",
            stratum_unspec: "未指定 / Kiss-o'-Death",
            stratum_primary: "主参考（原子钟 / GPS）",
            stratum_secondary: "次参考（层级 {}）",
            stratum_unsync: "未同步",
            theme_light: "浅色",
            theme_dark: "深色",
            theme_auto: "自动",
            lang_english: "英语",
            lang_chinese_simplified: "简体中文",
            lang_chinese_traditional: "繁體中文",
            peer_sys: "系统对等",
            unsafe_time: "⚠ 时间不安全（根距离 > 1.5 秒）",
            ref_id_tooltip: "参考源：GNSS/GPS、CESM（铯）、RUBY（铷），或层级 2+ 的上游 IP。",
            calibration: "校准",
            cal_enable: "在下一分钟响铃",
            cal_countdown: "下次响铃在 {:.1} 秒",
            cal_mark: "标记",
            cal_marked: "标记时间：{}",
            cal_hint: "将手表设为该分钟，等待响铃，然后按标记。",
            net_identity: "网络身份与位置",
            server_ip: "服务器 IP：{}",
            your_ip: "您的 IP：{}",
            server_loc: "服务器位置：{}",
            your_loc: "您的位置：{}",
            coords: "坐标：{:.4}, {:.4}",
            isp: "ISP：{}",
            peer_disp: "对等分散：{:.3} 毫秒",
            peer_warn: "⚠ 时间质量下降（对等分散过高）",
            tof: "上行：{:.1} 毫秒 | 下行：{:.1} 毫秒",
            kod_banner: "⚠ 服务器拒绝请求：{}",
            tab_time: "时间",
            tab_server: "服务器",
            tab_network: "网络",
            tab_calibration: "校准",
            tab_settings: "设置",
            time_format: "时间格式：",
            hour_12: "12 小时",
            hour_24: "24 小时",
            text_size: "文字大小：",
            size_small: "小",
            size_normal: "正常",
            size_big: "大",
            drift_test: "漂移测试",
            drift_start: "开始",
            drift_stop: "停止",
            drift_duration: "时长：",
            drift_running: "测量中... 剩余 {:.0} 秒",
            drift_result: "时钟在 {:.0} 秒内{}了 {:.1} 毫秒（{:+.1} ppm）",
            drift_fast: "快",
            drift_slow: "慢",
            drift_crystal: "估算晶振误差：{:+.1} ppm",
            hide_all: "全部隐藏",
            show_all: "全部显示",
            window_size: "窗口大小：{} x {}",
            fps: "FPS：{:.0}",
            visibility: "可见性",
            tab_global: "全球",
            search: "搜索：",
            hostname: "主机名",
            strategy: "同步策略",
            category: "类别",
            offset: "偏移",
            server_time: "服务器时间",
            device_time: "设备时间",
            extensions: "扩展字段",
            extensions_none: "无",
            set_time: "设置系统时间（需提升权限）",
            set_time_launched: "已启动提升权限提示。",
            set_time_failed: "无法启动提升权限进程。",
            set_time_na: "尚无服务器时间。",
        }
    }

    pub fn chinese_traditional() -> (s: Strings)
        ensures
            s == Strings::chinese_traditional_table(),
    {
        Strings {
            title: "NTP 時鐘",
            always_on_top: "始終置頂",
            theme: "主題：",
            language: "語言：",
            server: "伺服器：",
            add: "新增",
            edit: "編輯",
            remove: "刪除",
            active: "目前：{} ({})",
            edit_profile: "編輯伺服器設定",
            name: "名稱：",
            host: "主機：",
            ip: "IP：",
            save: "儲存",
            cancel: "取消",
            waiting: "等待 NTP 回應...",
            error: "錯誤：{}",
            deviation: "偏差：{}（伺服器與系統時鐘）",
            range: "範圍：{} .. {}",
            jitter: "抖動：{:.3} 毫秒（ping 標準差）",
            std_dev: "標準差：{:.3} 毫秒（偏移穩定性）",
            freq_error: "頻率誤差：{}（晶振漂移）",
            packet_loss: "封包遺失率：{:.2}%",
            clock_status: "時鐘狀態：{}",
            stratum: "層級：{} - {}",
            root_delay: "根延遲：{:.3} 毫秒",
            root_dispersion: "根分散：{:.3} 毫秒",
            leap: "閏秒指示：{} - {}",
            poll: "輪詢間隔：{:.0} 秒",
            precision: "精確度：{:.3} 毫秒",
            ref_id: "參考 ID：{}",
            ref_time: "參考時間：{}",
            ref_time_na: "參考時間：無",
            ping: "Ping：{:.1} 毫秒（最小 {:.1} / 平均 {:.1} / 最大 {:.1}）",
            sent: "傳送：{} 總計，{}",
            received: "接收：{} 總計，{}",
            requests: "請求：{} 傳送，{} 回應",
            utc: "UTC：{}",
            local: "本機：{}",
            epoch: "紀元：{}",
            origin: "起點 (T1)：{}",
            receive: "接收 (T2)：{}",
            transmit: "傳送 (T3)：{}",
            destination: "終點 (T4)：{}",
            true_rtt: "真實 RTT：{:.3} 毫秒",
            true_offset: "真實偏移：{}",
            ntp_version: "NTP 版本：{}",
            ntp_mode: "NTP 模式：{}",
            root_distance: "根距離：{:.3} 毫秒",
            peer_state: "對等狀態：{}",
            synchronized: "已同步",
            unsynchronized: "未同步",
            estimated: "估算（回退）",
            leap_none: "無警告",
            leap_61: "最後一分鐘有 61 秒",
            leap_59: "最後一分鐘有 59 秒",
            leap_alarm: "警報（時鐘未同步）",
            stratum_unspec: "未指定 / Kiss-o'-Death",
            stratum_primary: "主參考（原子鐘 / GPS）",
            stratum_secondary: "次參考（層級 {}）",
            stratum_unsync: "未同步",
            theme_light: "淺色",
            theme_dark: "深色",
            theme_auto: "自動",
            lang_english: "英語",
            lang_chinese_simplified: "簡體中文",
            lang_chinese_traditional: "繁體中文",
            peer_sys: "系統對等",
            unsafe_time: "⚠ 時間不安全（根距離 > 1.5 秒）",
            ref_id_tooltip: "參考源：GNSS/GPS、CESM（銫）、RUBY（銣），或層級 2+ 的上游 IP。",
            calibration: "校準",
            cal_enable: "在下一分鐘響鈴",
            cal_countdown: "下次響鈴在 {:.1} 秒",
            cal_mark: "標記",
            cal_marked: "標記時間：{}",
            cal_hint: "將手錶設為該分鐘，等待響鈴，然後按標記。",
            net_identity: "網路身分與位置",
            server_ip: "伺服器 IP：{}",
            your_ip: "您的 IP：{}",
            server_loc: "伺服器位置：{}",
            your_loc: "您的位置：{}",
            coords: "座標：{:.4}, {:.4}",
            isp: "ISP：{}",
            peer_disp: "對等分散：{:.3} 毫秒",
            peer_warn: "⚠ 時間品質下降（對等分散過高）",
            tof: "上行：{:.1} 毫秒 | 下行：{:.1} 毫秒",
            kod_banner: "⚠ 伺服器拒絕請求：{}",
            tab_time: "時間",
            tab_server: "伺服器",
            tab_network: "網路",
            tab_calibration: "校準",
            tab_settings: "設定",
            time_format: "時間格式：",
            hour_12: "12 小時",
            hour_24: "24 小時",
            text_size: "文字大小：",
            size_small: "小",
            size_normal: "正常",
            size_big: "大",
            drift_test: "漂移測試",
            drift_start: "開始",
            drift_stop: "停止",
            drift_duration: "時長：",
            drift_running: "測量中... 剩餘 {:.0} 秒",
            drift_result: "時鐘在 {:.0} 秒內{}了 {:.1} 毫秒（{:+.1} ppm）",
            drift_fast: "快",
            drift_slow: "慢",
            drift_crystal: "估算晶振誤差：{:+.1} ppm",
            hide_all: "全部隱藏",
            show_all: "全部顯示",
            window_size: "視窗大小：{} x {}",
            fps: "FPS：{:.0}",
            visibility: "可見性",
            tab_global: "全球",
            search: "搜尋：",
            hostname: "主機名",
            strategy: "同步策略",
            category: "類別",
            offset: "偏移",
            server_time: "伺服器時間",
            device_time: "裝置時間",
            extensions: "擴展欄位",
            extensions_none: "無",
            set_time: "設定系統時間（需提升權限）",
            set_time_launched: "已啟動提升權限提示。",
            set_time_failed: "無法啟動提升權限程序。",
            set_time_na: "尚無伺服器時間。",
        }
    }
}

} // verus!
