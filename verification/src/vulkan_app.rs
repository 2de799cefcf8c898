//! The application object and its event loop: it owns the instance from
//! construction to teardown, and drives a sequence of window events through
//! the dispatch until an exit event is seen, then tears the instance down.

use vstd::prelude::*;
use crate::events::Action;
use crate::events::ControlFlow;
use crate::events::Event;
use crate::events::count_frames_drawn;
use crate::events::count_redraw_requests;
use crate::events::handle_event;
use crate::events::has_exit_event;
use crate::events::is_exit_event;
use crate::events::lemma_count_frames_drawn_push;
use crate::events::lemma_count_redraw_requests_push;
use crate::instance::ApplicationInfo;
use crate::instance::Instance;
use crate::instance::all_extension_names_valid;
use crate::instance::valid_name;
use crate::platforms::Platform;
use crate::platforms::required_extension_names;
use crate::platforms::spec_required_extension_names;
use crate::version::make_version;
use crate::version::spec_make_version;

verus! {

/// The fixed logical width of the window.
pub const WINDOW_WIDTH: u32 = 800;

/// The fixed logical height of the window.
pub const WINDOW_HEIGHT: u32 = 600;

/// The window title, which doubles as the application name.
pub open spec fn spec_window_title() -> Seq<char> {
    "01.Instance Creation"@
}

/// The engine name reported in the application metadata.
pub open spec fn spec_engine_name() -> Seq<char> {
    "Vulkan Engine"@
}

/// Return the window title.
pub fn window_title() -> (t: &'static str)
    ensures
        t@ == spec_window_title(),
{
    "01.Instance Creation"
}

/// The size and title a window must be created with.
pub struct WindowConfig {
    pub width: u32,
    pub height: u32,
    pub title: String,
}

/// Return the fixed window configuration: logical size 800 by 600, titled
/// with the application name.
pub fn window_config() -> (w: WindowConfig)
    ensures
        w.width == WINDOW_WIDTH,
        w.height == WINDOW_HEIGHT,
        w.title@ == spec_window_title(),
{
    WindowConfig { width: WINDOW_WIDTH, height: WINDOW_HEIGHT, title: window_title().to_owned() }
}

/// Every name in the fixed metadata is free of NUL: the title, the engine
/// name, and both required extension names of any platform.
pub proof fn lemma_fixed_metadata_valid(platform: Platform)
    ensures
        valid_name(spec_window_title()),
        valid_name(spec_engine_name()),
        all_extension_names_valid(spec_required_extension_names(platform)),
{
    reveal_strlit("01.Instance Creation");
    reveal_strlit("Vulkan Engine");
    reveal_strlit("VK_KHR_surface");
    reveal_strlit("VK_KHR_win32_surface");
    reveal_strlit("VK_MVK_macos_surface");
    reveal_strlit("VK_KHR_xlib_surface");
    let exts = spec_required_extension_names(platform);
    assert forall|i: int| 0 <= i < exts.len() implies valid_name(#[trigger] exts[i]) by {
        if i == 0 {
            assert(valid_name(exts[0]));
        } else {
            assert(valid_name(exts[1]));
        }
    }
}

/// What one run of the event loop did: the control flag it ended with, how
/// many events it dispatched, and how many redraw requests and drawn
/// frames those events caused.
#[derive(Clone, Copy, PartialEq, Eq, Structural, Debug)]
pub struct LoopSummary {
    pub control_flow: ControlFlow,
    pub processed: usize,
    pub redraws_requested: usize,
    pub frames_drawn: usize,
}

/// The application object: it owns the instance for its whole lifetime,
/// from construction until `main_loop` tears it down.
pub struct VulkanApp {
    instance: Instance,
}

impl VulkanApp {
    /// Whether the owned instance has not been destroyed yet.
    pub closed spec fn instance_alive(self) -> bool {
        self.instance.alive()
    }

    /// The metadata the owned instance was created with.
    pub closed spec fn instance_info(self) -> ApplicationInfo {
        self.instance.app_info()
    }

    /// The extension names the owned instance was created with.
    pub closed spec fn instance_extensions(self) -> Seq<Seq<char>> {
        self.instance.extensions()
    }

    /// Borrow the owned instance.
    pub fn instance(&self) -> (r: &Instance)
        ensures
            r.alive() == self.instance_alive(),
            r.app_info() == self.instance_info(),
            r.extensions() == self.instance_extensions(),
    {
        &self.instance
    }

    /// Create the instance for the given platform: the application name is
    /// the window title, the engine is named and versioned alongside it,
    /// and the extension list is what the platform requires. Every one of
    /// those names is proven free of NUL, so creation cannot be refused.
    pub fn create_instance(platform: Platform) -> (inst: Instance)
        ensures
            inst.alive(),
            inst.app_info().application_name@ == spec_window_title(),
            inst.app_info().application_version == spec_make_version(1, 0, 0),
            inst.app_info().engine_name@ == spec_engine_name(),
            inst.app_info().engine_version == spec_make_version(1, 0, 0),
            inst.app_info().api_version == spec_make_version(1, 0, 92),
            inst.extensions() == spec_required_extension_names(platform),
    {
        let info = ApplicationInfo {
            application_name: window_title().to_owned(),
            application_version: make_version(1, 0, 0),
            engine_name: "Vulkan Engine".to_owned(),
            engine_version: make_version(1, 0, 0),
            api_version: make_version(1, 0, 92),
        };
        let extension_names = required_extension_names(platform);
        proof {
            lemma_fixed_metadata_valid(platform);
        }
        match Instance::create(info, extension_names) {
            Ok(inst) => inst,
            Err(_) => unreached(),
        }
    }

    /// Construct the application object: create the instance and take
    /// ownership of it.
    pub fn new(platform: Platform) -> (app: VulkanApp)
        ensures
            app.instance_alive(),
            app.instance_info().application_name@ == spec_window_title(),
            app.instance_info().application_version == spec_make_version(1, 0, 0),
            app.instance_info().engine_name@ == spec_engine_name(),
            app.instance_info().engine_version == spec_make_version(1, 0, 0),
            app.instance_info().api_version == spec_make_version(1, 0, 92),
            app.instance_extensions() == spec_required_extension_names(platform),
    {
        VulkanApp { instance: VulkanApp::create_instance(platform) }
    }

    /// Draw one frame. Rendering is deferred to a later stage, so this
    /// changes nothing.
    pub fn draw_frame(&mut self)
        ensures
            *final (self) == *old(self),
    {
    }

    /// Tear the application down: destroy the owned instance. The instance
    /// must still be alive, and is not afterwards, so teardown can run
    /// only once.
    pub fn teardown(&mut self)
        requires
            old(self).instance_alive(),
        ensures
            !final (self).instance_alive(),
            final (self).instance_info() == old(self).instance_info(),
            final (self).instance_extensions() == old(self).instance_extensions(),
    {
        self.instance.destroy();
    }

    /// Drive the event loop over a sequence of events. Events are
    /// dispatched in order; each "main events cleared" asks for exactly
    /// one redraw and each redraw request draws exactly one frame. The
    /// loop stops right after the first exit event, or at the end of the
    /// sequence, and the final flag says exit exactly when the sequence
    /// holds an exit event among the dispatched ones. On every path the
    /// application is torn down when the loop is left.
    pub fn main_loop(self, events: &Vec<Event>) -> (r: LoopSummary)
        requires
            self.instance_alive(),
        ensures
            r.processed <= events@.len(),
            r.control_flow is Exit <==> has_exit_event(events@),
            r.control_flow is Exit ==> r.processed >= 1 && is_exit_event(
                events@[r.processed - 1],
            ),
            r.control_flow is Continue ==> r.processed == events@.len(),
            forall|j: int| 0 <= j < r.processed - 1 ==> !is_exit_event(#[trigger] events@[j]),
            r.redraws_requested as nat == count_redraw_requests(events@.take(r.processed as int)),
            r.frames_drawn as nat == count_frames_drawn(events@.take(r.processed as int)),
    {
        let mut app = self;
        let mut flow = ControlFlow::Continue;
        let mut i: usize = 0;
        let mut redraws: usize = 0;
        let mut frames: usize = 0;
        while i < events.len() && flow == ControlFlow::Continue
            invariant
                i <= events@.len(),
                app.instance_alive(),
                flow is Exit <==> (i > 0 && is_exit_event(events@[i - 1])),
                forall|j: int| 0 <= j < i - 1 ==> !is_exit_event(#[trigger] events@[j]),
                flow is Continue && i > 0 ==> !is_exit_event(events@[i - 1]),
                redraws <= i,
                frames <= i,
                redraws as nat == count_redraw_requests(events@.take(i as int)),
                frames as nat == count_frames_drawn(events@.take(i as int)),
            decreases events@.len() - i,
        {
            let e = events[i];
            let action = handle_event(e, &mut flow);
            match action {
                Action::RequestRedraw => {
                    redraws = redraws + 1;
                },
                Action::DrawFrame => {
                    app.draw_frame();
                    frames = frames + 1;
                },
                Action::Ignore => {},
            }
            proof {
                lemma_count_redraw_requests_push(events@.take(i as int), e);
                lemma_count_frames_drawn_push(events@.take(i as int), e);
                assert(events@.take(i as int + 1) =~= events@.take(i as int).push(e));
            }
            i = i + 1;
        }
        app.teardown();
        proof {
            if flow is Exit {
                assert(is_exit_event(events@[i - 1]));
                assert(has_exit_event(events@));
            } else {
                assert(i == events@.len());
                assert forall|j: int| 0 <= j < events@.len() implies !is_exit_event(
                    #[trigger] events@[j],
                ) by {
                    if j == i - 1 {
                        assert(!is_exit_event(events@[i - 1]));
                    }
                }
                assert(!has_exit_event(events@));
            }
        }
        LoopSummary {
            control_flow: flow,
            processed: i,
            redraws_requested: redraws,
            frames_drawn: frames,
        }
    }
}

} // verus!
