//! Windows and the attributes they are made with.

use vstd::prelude::*;

use crate::event::WindowId;
use crate::request::WindowRequest;

verus! {

/// The name under which an application is known to the window manager.
#[derive(Debug, Clone, PartialEq, Eq)]
pub struct ApplicationName {
    pub general: String,
    pub instance: String,
}

impl ApplicationName {
    pub fn new(general: String, instance: String) -> (name: ApplicationName)
        ensures
            name == (ApplicationName { general, instance }),
    {
        ApplicationName { general, instance }
    }
}

/// Permission to take the focus when a window is shown.
#[derive(Debug, Clone, PartialEq, Eq)]
pub struct ActivationToken {
    pub token: String,
}

/// Attributes of a window that only this platform knows.
#[derive(Debug, Clone, PartialEq, Eq)]
pub struct PlatformSpecificWindowAttributes {
    pub name: Option<ApplicationName>,
    pub activation_token: Option<ActivationToken>,
    pub parent: Option<WindowId>,
    pub skip_taskbar: bool,
    pub auto_transparent: bool,
    pub double_buffered: bool,
    pub rgba_visual: bool,
    pub default_vbox: bool,
    pub app_paintable: bool,
}

impl Default for PlatformSpecificWindowAttributes {
    fn default() -> (attributes: Self)
        ensures
            attributes == (PlatformSpecificWindowAttributes {
                name: None,
                activation_token: None,
                parent: None,
                skip_taskbar: false,
                auto_transparent: true,
                double_buffered: true,
                rgba_visual: true,
                default_vbox: true,
                app_paintable: true,
            }),
    {
        PlatformSpecificWindowAttributes {
            name: None,
            activation_token: None,
            skip_taskbar: false,
            auto_transparent: true,
            default_vbox: true,
            rgba_visual: true,
            double_buffered: true,
            app_paintable: true,
            parent: None,
        }
    }
}

/// Attributes of a window. `A` holds those that all platforms share.
#[derive(Debug)]
pub struct WindowAttributes<A> {
    pub shared: A,
    pub platform_specific: PlatformSpecificWindowAttributes,
}

/// What this platform adds to window attributes.
pub trait WindowAttributesExtUnix: Sized {
    /// The attributes that `with_name` gives.
    spec fn named(self, general: String, instance: String) -> Self;

    /// Sets the name under which the application is known to the window manager.
    fn with_name(self, general: String, instance: String) -> (attributes: Self)
        ensures
            attributes == self.named(general, instance),
    ;
}

impl<A> WindowAttributesExtUnix for WindowAttributes<A> {
    open spec fn named(self, general: String, instance: String) -> Self {
        WindowAttributes {
            platform_specific: PlatformSpecificWindowAttributes {
                name: Some(ApplicationName { general, instance }),
                ..self.platform_specific
            },
            ..self
        }
    }

    fn with_name(self, general: String, instance: String) -> (attributes: Self) {
        let mut attributes = self;
        attributes.platform_specific.name = Some(ApplicationName::new(general, instance));
        attributes
    }
}

/// Of several names only the last one counts.
pub proof fn law_last_name_counts<A>(
    attributes: WindowAttributes<A>,
    general: String,
    instance: String,
    other_general: String,
    other_instance: String,
)
    ensures
        attributes.named(other_general, other_instance).named(general, instance)
            == attributes.named(general, instance),
{
}

/// A window, as the application holds it.
#[derive(Debug)]
pub struct Window {
    pub window_id: WindowId,
}

/// A request and the window it is addressed to.
#[derive(Debug)]
pub struct AddressedRequest {
    pub window_id: WindowId,
    pub request: WindowRequest,
}

/// What this platform adds to windows.
pub trait WindowExtUnix {
    /// The request that `set_skip_taskbar` gives.
    spec fn skip_taskbar_request(&self, skip: bool) -> AddressedRequest;

    /// Gives the request that takes the window out of the task bar or puts it
    /// back.
    fn set_skip_taskbar(&self, skip: bool) -> (request: AddressedRequest)
        ensures
            request == self.skip_taskbar_request(skip),
    ;
}

impl WindowExtUnix for Window {
    open spec fn skip_taskbar_request(&self, skip: bool) -> AddressedRequest {
        AddressedRequest {
            window_id: self.window_id,
            request: WindowRequest::SetSkipTaskbar(skip),
        }
    }

    fn set_skip_taskbar(&self, skip: bool) -> (request: AddressedRequest) {
        AddressedRequest {
            window_id: self.window_id,
            request: WindowRequest::SetSkipTaskbar(skip),
        }
    }
}

/// What `set_skip_taskbar` asks for is carried out for the task bar and for the
/// pager, and changes nothing else.
pub proof fn law_skip_taskbar_reaches_the_toolkit(
    window: Window,
    skip: bool,
    context: crate::request::WindowContext,
    actions: Seq<crate::request::WindowAction>,
)
    requires
        crate::request::carries_out(actions, window.skip_taskbar_request(skip).request, context),
    ensures
        actions == seq![
            crate::request::WindowAction::SetSkipTaskbarHint(skip),
            crate::request::WindowAction::SetSkipPagerHint(skip),
        ],
{
}

} // verus!
