//! The capture probe: a window picker and a frame counter without a caller behind them.
use vstd::prelude::*;

use crate::portal::{CursorMode, PersistMode, PortalReply, ReplyView, SourceRequest, SourceType};

verus! {

/// How many frames the probe announces one by one.
pub const ANNOUNCED_FRAMES: u32 = 5;

/// How long the probe counts frames, in seconds.
pub const PROBE_SECS: u64 = 5;

/// Opening the portal for a probe: the call that comes next, or its end.
pub enum ProbeFlow<D> {
    CreateProxy,
    CreateSession,
    SelectSources,
    /// Show the window picker and read the streams that it gives.
    StartPicker,
    OpenRemote { node_id: u32, width: i32, height: i32 },
    Opened { fd: D, node_id: u32, width: i32, height: i32 },
    Failed { message: String },
}

/// The value of a [`ProbeFlow`].
pub enum ProbeView<D> {
    CreateProxy,
    CreateSession,
    SelectSources,
    StartPicker,
    OpenRemote { node_id: u32, width: i32, height: i32 },
    Opened { fd: D, node_id: u32, width: i32, height: i32 },
    Failed { message: Seq<char> },
}

impl<D> View for ProbeFlow<D> {
    type V = ProbeView<D>;

    open spec fn view(&self) -> ProbeView<D> {
        match self {
            ProbeFlow::CreateProxy => ProbeView::CreateProxy,
            ProbeFlow::CreateSession => ProbeView::CreateSession,
            ProbeFlow::SelectSources => ProbeView::SelectSources,
            ProbeFlow::StartPicker => ProbeView::StartPicker,
            ProbeFlow::OpenRemote { node_id, width, height } => ProbeView::OpenRemote {
                node_id: *node_id,
                width: *width,
                height: *height,
            },
            ProbeFlow::Opened { fd, node_id, width, height } => ProbeView::Opened {
                fd: *fd,
                node_id: *node_id,
                width: *width,
                height: *height,
            },
            ProbeFlow::Failed { message } => ProbeView::Failed { message: message@ },
        }
    }
}

impl<D> ProbeView<D> {
    /// The flow is over.
    pub open spec fn over(self) -> bool {
        self is Opened || self is Failed
    }

    /// The flow after a reply. One that the call cannot have leaves it as it is.
    pub open spec fn next(self, reply: ReplyView<D>) -> ProbeView<D> {
        match (self, reply) {
            (_, ReplyView::Failed(failure)) => if self.over() {
                self
            } else {
                ProbeView::Failed { message: failure.message }
            },
            (ProbeView::CreateProxy, ReplyView::Done) => ProbeView::CreateSession,
            (ProbeView::CreateSession, ReplyView::Done) => ProbeView::SelectSources,
            (ProbeView::SelectSources, ReplyView::Done) => ProbeView::StartPicker,
            (ProbeView::StartPicker, ReplyView::Streams(streams)) => if streams.len() == 0 {
                ProbeView::Failed { message: "No stream selected"@ }
            } else {
                ProbeView::OpenRemote {
                    node_id: streams[0].node_id,
                    width: crate::portal::size_hint(streams[0]).0,
                    height: crate::portal::size_hint(streams[0]).1,
                }
            },
            (
                ProbeView::OpenRemote { node_id, width, height },
                ReplyView::Remote(fd),
            ) => ProbeView::Opened { fd, node_id, width, height },
            _ => self,
        }
    }
}

/// Advances the opening of the portal by the reply to its call. A failure is told in its own
/// words.
pub fn open_portal<D>(flow: ProbeFlow<D>, reply: PortalReply<D>) -> (next: ProbeFlow<D>)
    ensures
        next@ == flow@.next(reply@),
{
    match (flow, reply) {
        (ProbeFlow::Opened { fd, node_id, width, height }, _) => ProbeFlow::Opened {
            fd,
            node_id,
            width,
            height,
        },
        (ProbeFlow::Failed { message }, _) => ProbeFlow::Failed { message },
        (_, PortalReply::Failed(failure)) => ProbeFlow::Failed { message: failure.message },
        (ProbeFlow::CreateProxy, PortalReply::Done) => ProbeFlow::CreateSession,
        (ProbeFlow::CreateSession, PortalReply::Done) => ProbeFlow::SelectSources,
        (ProbeFlow::SelectSources, PortalReply::Done) => ProbeFlow::StartPicker,
        (ProbeFlow::StartPicker, PortalReply::Streams(streams)) => {
            if streams.len() == 0 {
                ProbeFlow::Failed { message: "No stream selected".to_owned() }
            } else {
                let (width, height): (i32, i32) = match streams[0].size {
                    Some(size) => size,
                    None => (0, 0),
                };
                ProbeFlow::OpenRemote { node_id: streams[0].node_id, width, height }
            }
        },
        (
            ProbeFlow::OpenRemote { node_id, width, height },
            PortalReply::Remote(fd),
        ) => ProbeFlow::Opened { fd, node_id, width, height },
        (flow, _) => flow,
    }
}

/// The selection of one window without the pointer, for this session alone.
pub fn probe_source_request() -> (request: SourceRequest)
    ensures
        request == (SourceRequest {
            cursor_mode: CursorMode::Hidden,
            source_type: SourceType::Window,
            multiple: false,
            persist_mode: PersistMode::DoNot,
        }),
{
    SourceRequest {
        cursor_mode: CursorMode::Hidden,
        source_type: SourceType::Window,
        multiple: false,
        persist_mode: PersistMode::DoNot,
    }
}

/// Counts a buffer that holds data. Returns the new count, and whether to announce the frame.
pub fn count_frame(count: u32, n_datas: u32, has_datas: bool) -> (counted: (u32, bool))
    requires
        n_datas > 0 && has_datas ==> count < u32::MAX,
    ensures
        counted.0 == (if n_datas > 0 && has_datas {
            count + 1
        } else {
            count as int
        }),
        counted.1 == (n_datas > 0 && has_datas && count < ANNOUNCED_FRAMES),
{
    if n_datas > 0 && has_datas {
        (count + 1, count < ANNOUNCED_FRAMES)
    } else {
        (count, false)
    }
}

/// Law: the flow of a probe is its value, case by case.
pub proof fn law_probe_is_its_value<D>(flow: ProbeFlow<D>)
    ensures
        match flow {
            ProbeFlow::CreateProxy => flow@ is CreateProxy,
            ProbeFlow::CreateSession => flow@ is CreateSession,
            ProbeFlow::SelectSources => flow@ is SelectSources,
            ProbeFlow::StartPicker => flow@ is StartPicker,
            ProbeFlow::OpenRemote { node_id, width, height } => flow@ == (ProbeView::<
                D,
            >::OpenRemote { node_id, width, height }),
            ProbeFlow::Opened { fd, node_id, width, height } => flow@ == (ProbeView::<D>::Opened {
                fd,
                node_id,
                width,
                height,
            }),
            ProbeFlow::Failed { message } => flow@ == (ProbeView::<D>::Failed { message: message@ }),
        },
{
}

/// Law: a probe that goes well opens the remote of the first stream, with the size that the portal
/// gives or else zero by zero. Without a stream it says that none was selected.
pub proof fn law_probe_opens_the_first_stream<D>(streams: Seq<crate::portal::PortalStream>, fd: D)
    requires
        streams.len() > 0,
    ensures
        ({
            let done = ReplyView::<D>::Done;
            let (width, height): (i32, i32) = match streams[0].size {
                Some(size) => size,
                None => (0i32, 0i32),
            };
            let node_id = streams[0].node_id;
            &&& ProbeView::<D>::CreateProxy.next(done) is CreateSession
            &&& ProbeView::<D>::CreateSession.next(done) is SelectSources
            &&& ProbeView::<D>::SelectSources.next(done) is StartPicker
            &&& ProbeView::<D>::StartPicker.next(ReplyView::Streams(streams)) == (ProbeView::<
                D,
            >::OpenRemote { node_id, width, height })
            &&& (ProbeView::<D>::OpenRemote { node_id, width, height }).next(ReplyView::Remote(fd))
                == (ProbeView::<D>::Opened { fd, node_id, width, height })
            &&& ProbeView::<D>::StartPicker.next(ReplyView::Streams(Seq::empty())) == (ProbeView::<
                D,
            >::Failed { message: "No stream selected"@ })
        }),
{
}

/// Law: a failure ends a probe that is not over in the words of the failure. A probe that is over
/// stays so, and a reply to another call changes nothing.
pub proof fn law_failed_probe_is_over<D>(
    flow: ProbeView<D>,
    failure: crate::error::FailureView,
    reply: ReplyView<D>,
)
    ensures
        flow is Opened || flow is Failed ==> flow.next(reply) == flow,
        !(flow is Opened) && !(flow is Failed) ==> flow.next(ReplyView::Failed(failure)) == (
        ProbeView::<D>::Failed { message: failure.message }),
        flow.next(reply) != flow ==> reply is Failed || match flow {
            ProbeView::StartPicker => reply is Streams,
            ProbeView::OpenRemote { .. } => reply is Remote,
            _ => reply is Done,
        },
{
}

/// Law: a probe announces the first five frames and counts for five seconds.
pub proof fn law_probe_in_numbers()
    ensures
        ANNOUNCED_FRAMES == 5,
        PROBE_SECS == 5,
{
}

} // verus!
