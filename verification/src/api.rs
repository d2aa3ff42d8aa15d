use vstd::prelude::*;

use crate::model::{ThreadContextPin, ThreadContextPinView};
use crate::thread_id::uuid_hyphenated;

verus! {

/// A pin as the app-server protocol hands it to clients; times in whole seconds
/// since the Unix epoch.
#[derive(Debug)]
pub struct ApiThreadContextPin {
    pub thread_id: String,
    pub pin_id: String,
    pub text: String,
    pub created_at: i64,
    pub updated_at: i64,
}

/// What a protocol pin holds, as mathematical values.
pub ghost struct ApiThreadContextPinView {
    pub thread_id: Seq<char>,
    pub pin_id: Seq<char>,
    pub text: Seq<char>,
    pub created_at: int,
    pub updated_at: int,
}

impl View for ApiThreadContextPin {
    type V = ApiThreadContextPinView;

    open spec fn view(&self) -> ApiThreadContextPinView {
        ApiThreadContextPinView {
            thread_id: self.thread_id@,
            pin_id: self.pin_id@,
            text: self.text@,
            created_at: self.created_at as int,
            updated_at: self.updated_at as int,
        }
    }
}

impl Clone for ApiThreadContextPin {
    fn clone(&self) -> (r: Self)
        ensures
            r@ == self@,
    {
        ApiThreadContextPin {
            thread_id: self.thread_id.clone(),
            pin_id: self.pin_id.clone(),
            text: self.text.clone(),
            created_at: self.created_at,
            updated_at: self.updated_at,
        }
    }
}

/// The protocol form of a stored pin: the thread id in its hyphenated form and the
/// times truncated to whole seconds.
pub open spec fn api_pin_view(pin: ThreadContextPinView) -> ApiThreadContextPinView {
    ApiThreadContextPinView {
        thread_id: uuid_hyphenated(pin.thread_id),
        pin_id: pin.pin_id,
        text: pin.text,
        created_at: pin.created_at / 1000,
        updated_at: pin.updated_at / 1000,
    }
}

/// Converts a stored pin to its protocol form.
pub fn api_thread_context_pin_from_state(pin: ThreadContextPin) -> (r: ApiThreadContextPin)
    ensures
        r@ == api_pin_view(pin@),
{
    ApiThreadContextPin {
        thread_id: pin.thread_id.to_string(),
        created_at: pin.created_at.timestamp(),
        updated_at: pin.updated_at.timestamp(),
        pin_id: pin.pin_id,
        text: pin.text,
    }
}

/// The protocol forms of stored pins, in their order.
pub fn api_pins_from_state(pins: Vec<ThreadContextPin>) -> (r: Vec<ApiThreadContextPin>)
    ensures
        r@.len() == pins@.len(),
        forall|i: int| 0 <= i < pins@.len() ==> #[trigger] r@[i]@ == api_pin_view(pins@[i]@),
{
    let ghost all = pins@;
    let mut rest = pins;
    let mut out: Vec<ApiThreadContextPin> = Vec::new();
    let ghost n = all.len();
    while rest.len() > 0
        invariant
            n == all.len(),
            out@.len() + rest@.len() == n,
            rest@ == all.subrange(out@.len() as int, n as int),
            forall|i: int| 0 <= i < out@.len() ==> #[trigger] out@[i]@ == api_pin_view(all[i]@),
        decreases rest@.len(),
    {
        let ghost k = out@.len() as int;
        assert(rest@[0] == all[k]);
        let pin = rest.remove(0);
        assert(rest@ =~= all.subrange(k + 1, n as int));
        out.push(api_thread_context_pin_from_state(pin));
    }
    out
}

} // verus!
