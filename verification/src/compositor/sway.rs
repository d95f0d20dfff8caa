//! The Sway backend adapter: capability calls become `input` command
//! lines over Sway's IPC socket, on a lazily established connection with
//! the reconnect-once policy of `conn`.

use vstd::prelude::*;
use vstd::string::StringExecFns;

use crate::compositor::Compositor;
use crate::compositor::CompositorResult;
use crate::compositor::conn::ConnEvent;
use crate::compositor::conn::ConnPhase;
use crate::compositor::conn::spec_conn_step;
use crate::compositor::input::Input;
use crate::compositor::input::InputResult;
use crate::error::Error;
use crate::identifier::EnvSnapshot;
use crate::model::AccelConfig;
use crate::model::AccelProfile;
use crate::model::ClickMethod;
use crate::model::NumlockState;
use crate::model::ScrollConfig;
use crate::model::ScrollMethod;
use crate::model::TapConfig;
use crate::options::normalize_options;

verus! {

/// Sway's IPC connection type, from the swayipc crate.
#[verifier::external_type_specification]
#[verifier::external_body]
pub struct ExSwayConnection(swayipc::Connection);

/// Relies on swayipc's `Connection::new`: connects to the socket named by
/// the environment, or reports why it could not.
#[verifier::external_body]
fn sway_connect() -> (r: Result<swayipc::Connection, String>) {
    swayipc::Connection::new().map_err(|e| e.to_string())
}

/// Relies on swayipc's `Connection::run_command`: runs one command line;
/// the outer error is a transport failure, the inner ones are per-command
/// rejections reported by sway.
#[verifier::external_body]
fn sway_run(conn: &mut swayipc::Connection, cmd: &str) -> (r: Result<
    Vec<Result<(), String>>,
    String,
>) {
    match conn.run_command(cmd) {
        Ok(v) => Ok(v.into_iter().map(|x| x.map_err(|e| e.to_string())).collect()),
        Err(e) => Err(e.to_string()),
    }
}

/// The error texts among one command's per-command outcomes, in order.
pub open spec fn spec_rejections(s: Seq<Result<(), String>>) -> Seq<String>
    decreases s.len(),
{
    if s.len() == 0 {
        Seq::<String>::empty()
    } else {
        (match s[0] {
            Result::Ok(_) => Seq::<String>::empty(),
            Result::Err(m) => seq![m],
        }) + spec_rejections(s.drop_first())
    }
}

/// Appending one outcome appends its error text, if any.
proof fn lemma_rejections_snoc(t: Seq<Result<(), String>>, x: Result<(), String>)
    ensures
        spec_rejections(t.push(x)) == spec_rejections(t) + (match x {
            Result::Ok(_) => Seq::<String>::empty(),
            Result::Err(m) => seq![m],
        }),
    decreases t.len(),
{
    let u = t.push(x);
    if t.len() == 0 {
        assert(u.len() == 1);
        assert(u[0] == x);
        assert(u.drop_first() =~= Seq::<Result<(), String>>::empty());
        assert(spec_rejections(Seq::<Result<(), String>>::empty()) =~= Seq::<String>::empty());
        assert(spec_rejections(t) =~= Seq::<String>::empty());
        assert(spec_rejections(u) =~= spec_rejections(t) + (match x {
            Result::Ok(_) => Seq::<String>::empty(),
            Result::Err(m) => seq![m],
        }));
    } else {
        assert(u[0] == t[0]);
        assert(u.drop_first() =~= t.drop_first().push(x));
        lemma_rejections_snoc(t.drop_first(), x);
        assert(spec_rejections(u) =~= spec_rejections(t) + (match x {
            Result::Ok(_) => Seq::<String>::empty(),
            Result::Err(m) => seq![m],
        }));
    }
}

/// Extract the error texts from one command's per-command outcomes,
/// exactly and in order.
pub fn collect_rejections(v: &Vec<Result<(), String>>) -> (r: Vec<String>)
    ensures
        r@ == spec_rejections(v@),
{
    let mut r: Vec<String> = Vec::new();
    let n = v.len();
    let mut i: usize = 0;
    proof {
        assert(v@.take(0) =~= Seq::<Result<(), String>>::empty());
    }
    while i < n
        invariant
            i <= n,
            n == v@.len(),
            r@ == spec_rejections(v@.take(i as int)),
        decreases n - i,
    {
        if let Result::Err(m) = &v[i] {
            r.push(m.clone());
        }
        proof {
            lemma_rejections_snoc(v@.take(i as int), v@[i as int]);
            assert(v@.take(i + 1 as int) =~= v@.take(i as int).push(v@[i as int]));
            assert(r@ =~= spec_rejections(v@.take(i + 1 as int)));
        }
        i = i + 1;
    }
    proof {
        assert(v@.take(n as int) =~= v@);
    }
    r
}

/// Sway's token for a boolean switch.
pub open spec fn sway_bool_token(value: bool) -> Seq<char> {
    if value {
        "enabled"@
    } else {
        "disabled"@
    }
}

/// Sway's token for a click method.
pub open spec fn sway_click_token(m: ClickMethod) -> Seq<char> {
    match m {
        ClickMethod::ButtonAreas => "button_areas"@,
        ClickMethod::Clickfinger => "clickfinger"@,
    }
}

/// Sway's token for a scroll method.
pub open spec fn sway_scroll_token(m: ScrollMethod) -> Seq<char> {
    match m {
        ScrollMethod::TwoFinger => "two_finger"@,
        ScrollMethod::Edge => "edge"@,
        ScrollMethod::OnButtonDown => "on_button"@,
        ScrollMethod::NoScroll => "none"@,
    }
}

/// Sway's token for an acceleration profile.
pub open spec fn sway_accel_token(p: AccelProfile) -> Seq<char> {
    match p {
        AccelProfile::Flat => "flat"@,
        AccelProfile::Adaptive => "adaptive"@,
    }
}

/// One `input` command line.
pub open spec fn sway_input_cmd(target: Seq<char>, setting: Seq<char>, value: Seq<char>) -> Seq<
    char,
> {
    "input "@ + target + " "@ + setting + " "@ + value
}

/// The Sway adapter: a lazily connected IPC session. Commands the
/// compositor rejects are best-effort, as the dispatcher logs and carries
/// on either way; their error texts accumulate in `rejected` until the
/// surrounding program drains them for logging.
pub struct Sway {
    pub connection: Option<swayipc::Connection>,
    pub rejected: Vec<String>,
}

impl Sway {
    /// A fresh, unconnected adapter.
    pub fn new() -> (r: Self)
        ensures
            r.connection is None,
            r.rejected@ == Seq::<String>::empty(),
    {
        Sway { connection: None, rejected: Vec::new() }
    }

    /// Hand out the rejection texts accumulated so far and forget them.
    pub fn take_rejections(&mut self) -> (r: Vec<String>)
        ensures
            r@ == old(self).rejected@,
            final(self).rejected@ == Seq::<String>::empty(),
            final(self).connection == old(self).connection,
    {
        let mut out: Vec<String> = Vec::new();
        core::mem::swap(&mut out, &mut self.rejected);
        out
    }

    /// Sway's token for a boolean switch.
    pub fn bool_to_sway(value: bool) -> (r: &'static str)
        ensures
            r@ == sway_bool_token(value),
    {
        if value {
            "enabled"
        } else {
            "disabled"
        }
    }

    /// Sway's token for a click method.
    pub fn map_click_method(method: &ClickMethod) -> (r: &'static str)
        ensures
            r@ == sway_click_token(*method),
    {
        match method {
            ClickMethod::ButtonAreas => "button_areas",
            ClickMethod::Clickfinger => "clickfinger",
        }
    }

    /// Sway's token for a scroll method.
    pub fn map_scroll_method(method: &ScrollMethod) -> (r: &'static str)
        ensures
            r@ == sway_scroll_token(*method),
    {
        match method {
            ScrollMethod::TwoFinger => "two_finger",
            ScrollMethod::Edge => "edge",
            ScrollMethod::OnButtonDown => "on_button",
            ScrollMethod::NoScroll => "none",
        }
    }

    /// Sway's token for an acceleration profile.
    pub fn map_accel_profile(profile: &AccelProfile) -> (r: &'static str)
        ensures
            r@ == sway_accel_token(*profile),
    {
        match profile {
            AccelProfile::Flat => "flat",
            AccelProfile::Adaptive => "adaptive",
        }
    }

    /// Build one `input` command line.
    pub fn input_cmd(target: &str, setting: &str, value: &str) -> (r: String)
        ensures
            r@ == sway_input_cmd(target@, setting@, value@),
    {
        let mut s = "input ".to_owned();
        s.append(target);
        s.append(" ");
        s.append(setting);
        s.append(" ");
        s.append(value);
        s
    }

    /// Run one command line over the connection, connecting lazily, and on
    /// a transport failure reconnecting and retrying exactly once. A
    /// command the compositor rejects is reported by sway per command and
    /// treated as best-effort, as the dispatcher logs and carries on
    /// either way; only transport failures surface as errors. After an
    /// error the connection is dropped, so the next command starts again
    /// from the unconnected state.
    pub fn run_command(&mut self, cmd: &str) -> (r: InputResult)
        ensures
            r is Ok ==> final(self).connection is Some,
            r is Err ==> final(self).connection is None,
            r matches Err(e) ==> (e is IpcConnection || e is IpcCommand),
            r is Err ==> final(self).rejected == old(self).rejected,
            final(self).rejected@.len() >= old(self).rejected@.len(),
            final(self).rejected@.subrange(0, old(self).rejected@.len() as int) == old(
                self,
            ).rejected@,
    {
        // Each step below is one transition of the lifecycle machine in
        // `conn`; the ghost phase is held to `spec_conn_step` throughout.
        let ghost mut phase: ConnPhase = if self.connection is Some {
            ConnPhase::Connected
        } else {
            ConnPhase::Unconnected
        };
        let mut c: swayipc::Connection = match self.connection.take() {
            Some(c) => c,
            None => match sway_connect() {
                Ok(c) => {
                    proof {
                        phase = spec_conn_step(phase, ConnEvent::ConnectOk);
                        assert(phase is Connected);
                    }
                    c
                },
                Err(m) => {
                    proof {
                        phase = spec_conn_step(phase, ConnEvent::ConnectErr);
                        assert(phase is Failed);
                    }
                    return Err(Error::ipc_connection("Sway", m, None));
                },
            },
        };
        match sway_run(&mut c, cmd) {
            Ok(outcomes) => {
                proof {
                    phase = spec_conn_step(phase, ConnEvent::SendOk);
                    assert(phase is Connected);
                }
                let mut reported = collect_rejections(&outcomes);
                self.rejected.append(&mut reported);
                self.connection = Some(c);
                proof {
                    assert(self.rejected@.subrange(0, old(self).rejected@.len() as int)
                        =~= old(self).rejected@);
                }
                Ok(())
            },
            Err(_m) => {
                // Transport failure: exactly one reconnect and one retry.
                proof {
                    phase = spec_conn_step(phase, ConnEvent::SendErr);
                    assert(phase is Reconnecting);
                }
                match sway_connect() {
                    Ok(mut c2) => {
                        proof {
                            phase = spec_conn_step(phase, ConnEvent::ConnectOk);
                            assert(phase is Reconnecting);
                        }
                        match sway_run(&mut c2, cmd) {
                            Ok(outcomes) => {
                                proof {
                                    phase = spec_conn_step(phase, ConnEvent::SendOk);
                                    assert(phase is Connected);
                                }
                                let mut reported = collect_rejections(&outcomes);
                                self.rejected.append(&mut reported);
                                self.connection = Some(c2);
                                proof {
                                    assert(self.rejected@.subrange(
                                        0,
                                        old(self).rejected@.len() as int,
                                    ) =~= old(self).rejected@);
                                }
                                Ok(())
                            },
                            Err(m2) => {
                                proof {
                                    phase = spec_conn_step(phase, ConnEvent::SendErr);
                                    assert(phase is Failed);
                                }
                                self.connection = None;
                                Err(Error::ipc_command("Sway", cmd.to_owned(), Some(m2)))
                            },
                        }
                    },
                    Err(m) => {
                        proof {
                            phase = spec_conn_step(phase, ConnEvent::ConnectErr);
                            assert(phase is Failed);
                        }
                        self.connection = None;
                        Err(Error::ipc_connection("Sway", m, None))
                    },
                }
            },
        }
    }

    /// Set a boolean switch; an absent value means "leave unchanged" and
    /// sends nothing.
    pub fn set_bool(&mut self, target: &str, setting: &str, value: Option<bool>) -> (r: InputResult)
        ensures
            value is None ==> r is Ok && *final(self) == *old(self),
            r matches Err(e) ==> (e is IpcConnection || e is IpcCommand || e is IpcResponse
                || e is CompositorNotRunning),
    {
        if let Some(value) = value {
            let val = Self::bool_to_sway(value);
            let cmd = Self::input_cmd(target, setting, val);
            return self.run_command(cmd.as_str());
        }
        Ok(())
    }

    /// Set a boolean switch that is always present.
    pub fn set_bool_required(&mut self, target: &str, setting: &str, value: bool) -> (r:
        InputResult)
        ensures
            r matches Err(e) ==> (e is IpcConnection || e is IpcCommand || e is IpcResponse
                || e is CompositorNotRunning),
    {
        let val = Self::bool_to_sway(value);
        let cmd = Self::input_cmd(target, setting, val);
        self.run_command(cmd.as_str())
    }

    /// Send a thousandth-valued setting, rendered as a decimal fraction.
    fn set_milli(&mut self, target: &str, setting: &str, value: i64) -> (r: InputResult)
        ensures
            r matches Err(e) ==> (e is IpcConnection || e is IpcCommand || e is IpcResponse
                || e is CompositorNotRunning),
    {
        let text = crate::numfmt::milli_value(value);
        let cmd = Self::input_cmd(target, setting, text.as_str());
        self.run_command(cmd.as_str())
    }

    /// Send an unsigned numeric setting.
    fn set_u32(&mut self, target: &str, setting: &str, value: u32) -> (r: InputResult)
        ensures
            r matches Err(e) ==> (e is IpcConnection || e is IpcCommand || e is IpcResponse
                || e is CompositorNotRunning),
    {
        let text = crate::numfmt::u32_value(value);
        let cmd = Self::input_cmd(target, setting, text.as_str());
        self.run_command(cmd.as_str())
    }

    /// Send acceleration settings to one device class: the clamped speed
    /// first, then the profile, so the dependent field follows the
    /// primary one.
    fn set_acceleration(&mut self, target: &str, accel: Option<AccelConfig>) -> (r: InputResult)
        ensures
            accel is None ==> r is Ok,
            r matches Err(e) ==> (e is IpcConnection || e is IpcCommand || e is IpcResponse
                || e is CompositorNotRunning),
    {
        if let Some(accel) = accel {
            let text = crate::numfmt::clamped_speed_value(accel.speed);
            let cmd = Self::input_cmd(target, "pointer_accel", text.as_str());
            self.run_command(cmd.as_str())?;
            if let Some(profile) = accel.profile {
                let token = Self::map_accel_profile(&profile);
                let cmd2 = Self::input_cmd(target, "accel_profile", token);
                self.run_command(cmd2.as_str())?;
            }
        }
        Ok(())
    }

    /// Send the parts of a composite scroll configuration that sway has
    /// setters for.
    fn set_scroll_config(&mut self, target: &str, config: Option<ScrollConfig>) -> (r: InputResult)
        ensures
            config is None ==> r is Ok,
            r matches Err(e) ==> (e is IpcConnection || e is IpcCommand || e is IpcResponse
                || e is CompositorNotRunning),
    {
        if let Some(config) = config {
            if let Some(factor) = config.scroll_factor {
                self.set_milli(target, "scroll_factor", factor)?;
            }
            if let Some(natural) = config.natural_scroll {
                self.set_bool_required(target, "natural_scroll", natural)?;
            }
        }
        Ok(())
    }
}

impl Compositor for Sway {
    /// Connect to the sway socket.
    fn init(&mut self, env: &EnvSnapshot) -> (r: CompositorResult)
        ensures
            r is Ok ==> final(self).connection is Some,
    {
        match sway_connect() {
            Ok(c) => {
                self.connection = Some(c);
                Ok(())
            },
            Err(m) => Err(Error::ipc_connection("Sway", m, None)),
        }
    }

    fn name(&self) -> &'static str {
        "Sway"
    }

    fn is_running(&self, env: &EnvSnapshot) -> (r: bool)
        ensures
            r == (env.swaysock is Some),
    {
        env.swaysock.is_some()
    }
}

impl Input for Sway {
    fn keyboard_rules(&mut self, rules: String) -> InputResult {
        let cmd = Self::input_cmd("type:keyboard", "xkb_rules", rules.as_str());
        self.run_command(cmd.as_str())
    }

    fn keyboard_model(&mut self, model: String) -> InputResult {
        let cmd = Self::input_cmd("type:keyboard", "xkb_model", model.as_str());
        self.run_command(cmd.as_str())
    }

    fn keyboard_layout(&mut self, layout: String) -> InputResult {
        let cmd = Self::input_cmd("type:keyboard", "xkb_layout", layout.as_str());
        self.run_command(cmd.as_str())
    }

    fn keyboard_variant(&mut self, variant: String) -> InputResult {
        let cmd = Self::input_cmd("type:keyboard", "xkb_variant", variant.as_str());
        self.run_command(cmd.as_str())
    }

    fn keyboard_options(&mut self, options: Option<String>) -> (r: InputResult)
        ensures
            options is None ==> r is Ok,
    {
        if let Some(options) = options {
            let cleaned = normalize_options(options.as_str());
            let cmd = Self::input_cmd("type:keyboard", "xkb_options", cleaned.as_str());
            return self.run_command(cmd.as_str());
        }
        Ok(())
    }

    fn keyboard_repeat_delay(&mut self, delay: u32) -> InputResult {
        self.set_u32("type:keyboard", "repeat_delay", delay)
    }

    fn keyboard_repeat_rate(&mut self, rate: u32) -> InputResult {
        self.set_u32("type:keyboard", "repeat_rate", rate)
    }

    fn numslock_state(&mut self, state: NumlockState) -> (r: InputResult)
        ensures
            state is LastBoot ==> r is Ok,
    {
        match state {
            NumlockState::BootOn => self.set_bool_required("type:keyboard", "xkb_numlock", true),
            NumlockState::BootOff => self.set_bool_required("type:keyboard", "xkb_numlock", false),
            // Keep the last state: nothing to change.
            NumlockState::LastBoot => Ok(()),
        }
    }

    fn touchpad_acceleration(&mut self, accel: Option<AccelConfig>) -> (r: InputResult)
        ensures
            accel is None ==> r is Ok,
    {
        self.set_acceleration("type:touchpad", accel)
    }

    fn touchpad_click_method(&mut self, method: Option<ClickMethod>) -> (r: InputResult)
        ensures
            method is None ==> r is Ok,
    {
        if let Some(method) = method {
            let token = Self::map_click_method(&method);
            let cmd = Self::input_cmd("type:touchpad", "click_method", token);
            return self.run_command(cmd.as_str());
        }
        Ok(())
    }

    fn touchpad_disable_while_typing(&mut self, enabled: Option<bool>) -> (r: InputResult)
        ensures
            enabled is None ==> r is Ok,
    {
        self.set_bool("type:touchpad", "dwt", enabled)
    }

    fn touchpad_left_handed(&mut self, enabled: Option<bool>) -> (r: InputResult)
        ensures
            enabled is None ==> r is Ok,
    {
        self.set_bool("type:touchpad", "left_handed", enabled)
    }

    fn touchpad_middle_button_emulation(&mut self, enabled: Option<bool>) -> (r: InputResult)
        ensures
            enabled is None ==> r is Ok,
    {
        self.set_bool("type:touchpad", "middle_emulation", enabled)
    }

    fn touchpad_scroll_config(&mut self, config: Option<ScrollConfig>) -> (r: InputResult)
        ensures
            config is None ==> r is Ok,
    {
        self.set_scroll_config("type:touchpad", config)
    }

    fn touchpad_scroll_method(&mut self, method: Option<ScrollMethod>) -> (r: InputResult)
        ensures
            method is None ==> r is Ok,
    {
        if let Some(method) = method {
            let token = Self::map_scroll_method(&method);
            let cmd = Self::input_cmd("type:touchpad", "scroll_method", token);
            return self.run_command(cmd.as_str());
        }
        Ok(())
    }

    fn touchpad_natural_scroll(&mut self, enabled: Option<bool>) -> (r: InputResult)
        ensures
            enabled is None ==> r is Ok,
    {
        self.set_bool("type:touchpad", "natural_scroll", enabled)
    }

    fn touchpad_scroll_factor(&mut self, factor: Option<i64>) -> (r: InputResult)
        ensures
            factor is None ==> r is Ok,
    {
        if let Some(factor) = factor {
            return self.set_milli("type:touchpad", "scroll_factor", factor);
        }
        Ok(())
    }

    fn touchpad_scroll_button(&mut self, button: Option<u32>) -> (r: InputResult)
        ensures
            button is None ==> r is Ok,
    {
        if let Some(button) = button {
            return self.set_u32("type:touchpad", "scroll_button", button);
        }
        Ok(())
    }

    fn touchpad_tap_config(&mut self, config: Option<TapConfig>) -> (r: InputResult)
        ensures
            config is None ==> r is Ok,
    {
        if let Some(config) = config {
            self.set_bool_required("type:touchpad", "tap", config.enabled)?;
            self.set_bool_required("type:touchpad", "tap_and_drag", config.drag)?;
            self.set_bool_required("type:touchpad", "drag_lock", config.drag_lock)?;
        }
        Ok(())
    }

    fn touchpad_tap_enabled(&mut self, enabled: bool) -> InputResult {
        self.set_bool_required("type:touchpad", "tap", enabled)
    }

    fn touchpad_tap_drag(&mut self, enabled: bool) -> InputResult {
        self.set_bool_required("type:touchpad", "tap_and_drag", enabled)
    }

    fn touchpad_tap_drag_lock(&mut self, enabled: bool) -> InputResult {
        self.set_bool_required("type:touchpad", "drag_lock", enabled)
    }

    fn mouse_acceleration(&mut self, accel: Option<AccelConfig>) -> (r: InputResult)
        ensures
            accel is None ==> r is Ok,
    {
        self.set_acceleration("type:pointer", accel)
    }

    fn mouse_click_method(&mut self, method: Option<ClickMethod>) -> (r: InputResult)
        ensures
            method is None ==> r is Ok,
    {
        if let Some(method) = method {
            let token = Self::map_click_method(&method);
            let cmd = Self::input_cmd("type:pointer", "click_method", token);
            return self.run_command(cmd.as_str());
        }
        Ok(())
    }

    fn mouse_disable_while_typing(&mut self, enabled: Option<bool>) -> (r: InputResult)
        ensures
            enabled is None ==> r is Ok,
    {
        self.set_bool("type:pointer", "dwt", enabled)
    }

    fn mouse_left_handed(&mut self, enabled: Option<bool>) -> (r: InputResult)
        ensures
            enabled is None ==> r is Ok,
    {
        self.set_bool("type:pointer", "left_handed", enabled)
    }

    fn mouse_middle_button_emulation(&mut self, enabled: Option<bool>) -> (r: InputResult)
        ensures
            enabled is None ==> r is Ok,
    {
        self.set_bool("type:pointer", "middle_emulation", enabled)
    }

    fn mouse_scroll_config(&mut self, config: Option<ScrollConfig>) -> (r: InputResult)
        ensures
            config is None ==> r is Ok,
    {
        self.set_scroll_config("type:pointer", config)
    }

    fn mouse_scroll_method(&mut self, method: Option<ScrollMethod>) -> (r: InputResult)
        ensures
            method is None ==> r is Ok,
    {
        if let Some(method) = method {
            let token = Self::map_scroll_method(&method);
            let cmd = Self::input_cmd("type:pointer", "scroll_method", token);
            return self.run_command(cmd.as_str());
        }
        Ok(())
    }

    fn mouse_natural_scroll(&mut self, enabled: Option<bool>) -> (r: InputResult)
        ensures
            enabled is None ==> r is Ok,
    {
        self.set_bool("type:pointer", "natural_scroll", enabled)
    }

    fn mouse_scroll_factor(&mut self, factor: Option<i64>) -> (r: InputResult)
        ensures
            factor is None ==> r is Ok,
    {
        if let Some(factor) = factor {
            return self.set_milli("type:pointer", "scroll_factor", factor);
        }
        Ok(())
    }

    fn mouse_scroll_button(&mut self, button: Option<u32>) -> (r: InputResult)
        ensures
            button is None ==> r is Ok,
    {
        if let Some(button) = button {
            return self.set_u32("type:pointer", "scroll_button", button);
        }
        Ok(())
    }
}

} // verus!
