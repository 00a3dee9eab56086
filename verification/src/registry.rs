//! The response registry: for each request kind, the JSON shape its reply
//! must have, and the decoder that maps a raw payload to the typed
//! response variant.
//!
//! Every shape is written down as a spec-level parse over the payload
//! bytes; the executable decoders are proved to return exactly that
//! denotation. The rules are JSON-semantic: whitespace between tokens is
//! insignificant, object members may come in any order, members the shape
//! does not know are skipped, a member named twice is an error, and a
//! missing required member is an error. A payload whose shape does not
//! match the kind is a typed decode error, never a silently coerced or
//! defaulted value, and an unrecognized kind is an explicit error of its
//! own.

use vstd::prelude::*;
use crate::json::{
    sp_lit, sp_u64, sp_string, sp_bool, sp_ws, sp_skip_value, expect_byte, parse_u64,
    parse_string, parse_bool, skip_ws, skip_value, bytes_eq,
};
use crate::types::{
    CommandResponse, DecodeError, Rect, Response, SubscribeResponse, WorkspaceResponse,
    WorkspaceView, Message, workspace_views,
};

verus! {

/// The key `success`.
pub open spec fn success_name() -> Seq<u8> {
    seq![115u8, 117u8, 99u8, 99u8, 101u8, 115u8, 115u8]
}

/// The key `parse_error`.
pub open spec fn parse_error_name() -> Seq<u8> {
    seq![112u8, 97u8, 114u8, 115u8, 101u8, 95u8, 101u8, 114u8, 114u8, 111u8, 114u8]
}

/// The key `num`.
pub open spec fn num_name() -> Seq<u8> {
    seq![110u8, 117u8, 109u8]
}

/// The key `name`.
pub open spec fn name_name() -> Seq<u8> {
    seq![110u8, 97u8, 109u8, 101u8]
}

/// The key `visible`.
pub open spec fn visible_name() -> Seq<u8> {
    seq![118u8, 105u8, 115u8, 105u8, 98u8, 108u8, 101u8]
}

/// The key `focused`.
pub open spec fn focused_name() -> Seq<u8> {
    seq![102u8, 111u8, 99u8, 117u8, 115u8, 101u8, 100u8]
}

/// The key `urgent`.
pub open spec fn urgent_name() -> Seq<u8> {
    seq![117u8, 114u8, 103u8, 101u8, 110u8, 116u8]
}

/// The key `rect`.
pub open spec fn rect_name() -> Seq<u8> {
    seq![114u8, 101u8, 99u8, 116u8]
}

/// The key `x`.
pub open spec fn x_name() -> Seq<u8> {
    seq![120u8]
}

/// The key `y`.
pub open spec fn y_name() -> Seq<u8> {
    seq![121u8]
}

/// The key `width`.
pub open spec fn width_name() -> Seq<u8> {
    seq![119u8, 105u8, 100u8, 116u8, 104u8]
}

/// The key `height`.
pub open spec fn height_name() -> Seq<u8> {
    seq![104u8, 101u8, 105u8, 103u8, 104u8, 116u8]
}

/// The key `output`.
pub open spec fn output_name() -> Seq<u8> {
    seq![111u8, 117u8, 116u8, 112u8, 117u8, 116u8]
}

/// One key of an object, from its opening quote through the colon, to the
/// first byte of its value.
pub open spec fn sp_member_key(s: Seq<u8>, pos: int) -> Option<(Seq<u8>, int)> {
    match sp_string(s, pos) {
        None => None,
        Some((key, p)) => {
            let p1 = sp_ws(s, p);
            match sp_lit(s, p1, seq![58u8]) {
                None => None,
                Some(p2raw) => Some((key, sp_ws(s, p2raw))),
            }
        },
    }
}

/// The members of a command-reply entry, from its first key on: `success`
/// (required bool), `parse_error` (optional bool, absent means false),
/// anything else skipped; a repeated known key is an error.
pub open spec fn sp_cmd_members(
    s: Seq<u8>,
    pos: int,
    succ: Option<bool>,
    perr: Option<bool>,
) -> Option<(CommandResponse, int)>
    decreases s.len() - pos, 0int,
{
    match sp_member_key(s, pos) {
        None => None,
        Some((key, p2)) => if key == success_name() {
            if succ is Some {
                None
            } else {
                match sp_bool(s, p2) {
                    None => None,
                    Some((b, q)) => if pos < q <= s.len() {
                        sp_cmd_after(s, q, Some(b), perr)
                    } else {
                        None
                    },
                }
            }
        } else if key == parse_error_name() {
            if perr is Some {
                None
            } else {
                match sp_bool(s, p2) {
                    None => None,
                    Some((b, q)) => if pos < q <= s.len() {
                        sp_cmd_after(s, q, succ, Some(b))
                    } else {
                        None
                    },
                }
            }
        } else {
            match sp_skip_value(s, p2) {
                None => None,
                Some(q) => if pos < q <= s.len() {
                    sp_cmd_after(s, q, succ, perr)
                } else {
                    None
                },
            }
        },
    }
}

/// After one member of a command-reply entry: a comma and another member,
/// or the closing brace, where `success` must have been seen.
pub open spec fn sp_cmd_after(
    s: Seq<u8>,
    pos: int,
    succ: Option<bool>,
    perr: Option<bool>,
) -> Option<(CommandResponse, int)>
    decreases s.len() - pos, 1int,
{
    let p1 = sp_ws(s, pos);
    if p1 < s.len() && s[p1] == 44 {
        let p2 = sp_ws(s, p1 + 1);
        if pos < p2 <= s.len() {
            sp_cmd_members(s, p2, succ, perr)
        } else {
            None
        }
    } else if p1 < s.len() && s[p1] == 125 {
        match succ {
            Some(b) => Some(
                (
                    CommandResponse {
                        success: b,
                        parse_error: match perr {
                            Some(pe) => pe,
                            None => false,
                        },
                    },
                    p1 + 1,
                ),
            ),
            None => None,
        }
    } else {
        None
    }
}

/// One command-reply entry: an object with the members above.
pub open spec fn sp_cmd_obj(s: Seq<u8>, pos: int) -> Option<(CommandResponse, int)> {
    match sp_lit(s, pos, seq![123u8]) {
        None => None,
        Some(p1raw) => {
            let p1 = sp_ws(s, p1raw);
            if p1 < s.len() && s[p1] == 125 {
                None
            } else if pos < p1 <= s.len() {
                sp_cmd_members(s, p1, None, None)
            } else {
                None
            }
        },
    }
}

/// The members of a subscription acknowledgement: `success` (required
/// bool), anything else skipped.
pub open spec fn sp_sub_members(s: Seq<u8>, pos: int, succ: Option<bool>) -> Option<
    (SubscribeResponse, int),
>
    decreases s.len() - pos, 0int,
{
    match sp_member_key(s, pos) {
        None => None,
        Some((key, p2)) => if key == success_name() {
            if succ is Some {
                None
            } else {
                match sp_bool(s, p2) {
                    None => None,
                    Some((b, q)) => if pos < q <= s.len() {
                        sp_sub_after(s, q, Some(b))
                    } else {
                        None
                    },
                }
            }
        } else {
            match sp_skip_value(s, p2) {
                None => None,
                Some(q) => if pos < q <= s.len() {
                    sp_sub_after(s, q, succ)
                } else {
                    None
                },
            }
        },
    }
}

/// After one member of a subscription acknowledgement.
pub open spec fn sp_sub_after(s: Seq<u8>, pos: int, succ: Option<bool>) -> Option<
    (SubscribeResponse, int),
>
    decreases s.len() - pos, 1int,
{
    let p1 = sp_ws(s, pos);
    if p1 < s.len() && s[p1] == 44 {
        let p2 = sp_ws(s, p1 + 1);
        if pos < p2 <= s.len() {
            sp_sub_members(s, p2, succ)
        } else {
            None
        }
    } else if p1 < s.len() && s[p1] == 125 {
        match succ {
            Some(b) => Some((SubscribeResponse { success: b }, p1 + 1)),
            None => None,
        }
    } else {
        None
    }
}

/// A subscription acknowledgement object.
pub open spec fn sp_sub_obj(s: Seq<u8>, pos: int) -> Option<(SubscribeResponse, int)> {
    match sp_lit(s, pos, seq![123u8]) {
        None => None,
        Some(p1raw) => {
            let p1 = sp_ws(s, p1raw);
            if p1 < s.len() && s[p1] == 125 {
                None
            } else if pos < p1 <= s.len() {
                sp_sub_members(s, p1, None)
            } else {
                None
            }
        },
    }
}

/// The members of a rectangle: `x`, `y`, `width`, `height`, all required
/// numbers, anything else skipped.
pub open spec fn sp_rect_members(
    s: Seq<u8>,
    pos: int,
    x: Option<u64>,
    y: Option<u64>,
    width: Option<u64>,
    height: Option<u64>,
) -> Option<(Rect, int)>
    decreases s.len() - pos, 0int,
{
    match sp_member_key(s, pos) {
        None => None,
        Some((key, p2)) => if key == x_name() {
            if x is Some {
                None
            } else {
                match sp_u64(s, p2) {
                    None => None,
                    Some((v, q)) => if pos < q <= s.len() {
                        sp_rect_after(s, q, Some(v), y, width, height)
                    } else {
                        None
                    },
                }
            }
        } else if key == y_name() {
            if y is Some {
                None
            } else {
                match sp_u64(s, p2) {
                    None => None,
                    Some((v, q)) => if pos < q <= s.len() {
                        sp_rect_after(s, q, x, Some(v), width, height)
                    } else {
                        None
                    },
                }
            }
        } else if key == width_name() {
            if width is Some {
                None
            } else {
                match sp_u64(s, p2) {
                    None => None,
                    Some((v, q)) => if pos < q <= s.len() {
                        sp_rect_after(s, q, x, y, Some(v), height)
                    } else {
                        None
                    },
                }
            }
        } else if key == height_name() {
            if height is Some {
                None
            } else {
                match sp_u64(s, p2) {
                    None => None,
                    Some((v, q)) => if pos < q <= s.len() {
                        sp_rect_after(s, q, x, y, width, Some(v))
                    } else {
                        None
                    },
                }
            }
        } else {
            match sp_skip_value(s, p2) {
                None => None,
                Some(q) => if pos < q <= s.len() {
                    sp_rect_after(s, q, x, y, width, height)
                } else {
                    None
                },
            }
        },
    }
}

/// After one member of a rectangle.
pub open spec fn sp_rect_after(
    s: Seq<u8>,
    pos: int,
    x: Option<u64>,
    y: Option<u64>,
    width: Option<u64>,
    height: Option<u64>,
) -> Option<(Rect, int)>
    decreases s.len() - pos, 1int,
{
    let p1 = sp_ws(s, pos);
    if p1 < s.len() && s[p1] == 44 {
        let p2 = sp_ws(s, p1 + 1);
        if pos < p2 <= s.len() {
            sp_rect_members(s, p2, x, y, width, height)
        } else {
            None
        }
    } else if p1 < s.len() && s[p1] == 125 {
        match (x, y, width, height) {
            (Some(xv), Some(yv), Some(wv), Some(hv)) => Some(
                (Rect { x: xv, y: yv, width: wv, height: hv }, p1 + 1),
            ),
            _ => None,
        }
    } else {
        None
    }
}

/// A rectangle object.
pub open spec fn sp_rect_obj(s: Seq<u8>, pos: int) -> Option<(Rect, int)> {
    match sp_lit(s, pos, seq![123u8]) {
        None => None,
        Some(p1raw) => {
            let p1 = sp_ws(s, p1raw);
            if p1 < s.len() && s[p1] == 125 {
                None
            } else if pos < p1 <= s.len() {
                sp_rect_members(s, p1, None, None, None, None)
            } else {
                None
            }
        },
    }
}

/// The members of a workspace descriptor: `num` (number), `name`
/// (string), `visible`, `focused`, `urgent` (booleans), `rect`
/// (rectangle object) and `output` (string), all required, anything else
/// skipped.
pub open spec fn sp_ws_members(
    s: Seq<u8>,
    pos: int,
    num: Option<u64>,
    name: Option<Seq<u8>>,
    visible: Option<bool>,
    focused: Option<bool>,
    urgent: Option<bool>,
    rect: Option<Rect>,
    output: Option<Seq<u8>>,
) -> Option<(WorkspaceView, int)>
    decreases s.len() - pos, 0int,
{
    match sp_member_key(s, pos) {
        None => None,
        Some((key, p2)) => if key == num_name() {
            if num is Some {
                None
            } else {
                match sp_u64(s, p2) {
                    None => None,
                    Some((v, q)) => if pos < q <= s.len() {
                        sp_ws_after(s, q, Some(v), name, visible, focused, urgent, rect, output)
                    } else {
                        None
                    },
                }
            }
        } else if key == name_name() {
            if name is Some {
                None
            } else {
                match sp_string(s, p2) {
                    None => None,
                    Some((v, q)) => if pos < q <= s.len() {
                        sp_ws_after(s, q, num, Some(v), visible, focused, urgent, rect, output)
                    } else {
                        None
                    },
                }
            }
        } else if key == visible_name() {
            if visible is Some {
                None
            } else {
                match sp_bool(s, p2) {
                    None => None,
                    Some((v, q)) => if pos < q <= s.len() {
                        sp_ws_after(s, q, num, name, Some(v), focused, urgent, rect, output)
                    } else {
                        None
                    },
                }
            }
        } else if key == focused_name() {
            if focused is Some {
                None
            } else {
                match sp_bool(s, p2) {
                    None => None,
                    Some((v, q)) => if pos < q <= s.len() {
                        sp_ws_after(s, q, num, name, visible, Some(v), urgent, rect, output)
                    } else {
                        None
                    },
                }
            }
        } else if key == urgent_name() {
            if urgent is Some {
                None
            } else {
                match sp_bool(s, p2) {
                    None => None,
                    Some((v, q)) => if pos < q <= s.len() {
                        sp_ws_after(s, q, num, name, visible, focused, Some(v), rect, output)
                    } else {
                        None
                    },
                }
            }
        } else if key == rect_name() {
            if rect is Some {
                None
            } else {
                match sp_rect_obj(s, p2) {
                    None => None,
                    Some((v, q)) => if pos < q <= s.len() {
                        sp_ws_after(s, q, num, name, visible, focused, urgent, Some(v), output)
                    } else {
                        None
                    },
                }
            }
        } else if key == output_name() {
            if output is Some {
                None
            } else {
                match sp_string(s, p2) {
                    None => None,
                    Some((v, q)) => if pos < q <= s.len() {
                        sp_ws_after(s, q, num, name, visible, focused, urgent, rect, Some(v))
                    } else {
                        None
                    },
                }
            }
        } else {
            match sp_skip_value(s, p2) {
                None => None,
                Some(q) => if pos < q <= s.len() {
                    sp_ws_after(s, q, num, name, visible, focused, urgent, rect, output)
                } else {
                    None
                },
            }
        },
    }
}

/// After one member of a workspace descriptor.
pub open spec fn sp_ws_after(
    s: Seq<u8>,
    pos: int,
    num: Option<u64>,
    name: Option<Seq<u8>>,
    visible: Option<bool>,
    focused: Option<bool>,
    urgent: Option<bool>,
    rect: Option<Rect>,
    output: Option<Seq<u8>>,
) -> Option<(WorkspaceView, int)>
    decreases s.len() - pos, 1int,
{
    let p1 = sp_ws(s, pos);
    if p1 < s.len() && s[p1] == 44 {
        let p2 = sp_ws(s, p1 + 1);
        if pos < p2 <= s.len() {
            sp_ws_members(s, p2, num, name, visible, focused, urgent, rect, output)
        } else {
            None
        }
    } else if p1 < s.len() && s[p1] == 125 {
        match (num, name, visible, focused, urgent, rect, output) {
            (
                Some(numv),
                Some(namev),
                Some(visiblev),
                Some(focusedv),
                Some(urgentv),
                Some(rectv),
                Some(outputv),
            ) => Some(
                (
                    WorkspaceView {
                        num: numv,
                        name: namev,
                        visible: visiblev,
                        focused: focusedv,
                        urgent: urgentv,
                        rect: rectv,
                        output: outputv,
                    },
                    p1 + 1,
                ),
            ),
            _ => None,
        }
    } else {
        None
    }
}

/// A workspace descriptor object.
pub open spec fn sp_ws_obj(s: Seq<u8>, pos: int) -> Option<(WorkspaceView, int)> {
    match sp_lit(s, pos, seq![123u8]) {
        None => None,
        Some(p1raw) => {
            let p1 = sp_ws(s, p1raw);
            if p1 < s.len() && s[p1] == 125 {
                None
            } else if pos < p1 <= s.len() {
                sp_ws_members(s, p1, None, None, None, None, None, None, None)
            } else {
                None
            }
        },
    }
}

/// One or more command-reply entries separated by commas, up to and
/// including the closing bracket.
pub open spec fn sp_cmd_items(s: Seq<u8>, pos: int) -> Option<(Seq<CommandResponse>, int)>
    decreases s.len() - pos,
{
    match sp_cmd_obj(s, pos) {
        None => None,
        Some((c, p)) => if !(pos < p <= s.len()) {
            None
        } else {
            let p1 = sp_ws(s, p);
            if p1 < s.len() && s[p1] == 44 {
                let p2 = sp_ws(s, p1 + 1);
                if pos < p2 <= s.len() {
                    match sp_cmd_items(s, p2) {
                        Some((rest, end)) => Some((seq![c] + rest, end)),
                        None => None,
                    }
                } else {
                    None
                }
            } else if p1 < s.len() && s[p1] == 93 {
                Some((seq![c], p1 + 1))
            } else {
                None
            }
        },
    }
}

/// A command reply: a bracketed array of command-reply entries.
pub open spec fn sp_cmd_array(s: Seq<u8>, pos: int) -> Option<(Seq<CommandResponse>, int)> {
    match sp_lit(s, pos, seq![91u8]) {
        None => None,
        Some(p1raw) => {
            let p1 = sp_ws(s, p1raw);
            if p1 < s.len() && s[p1] == 93 {
                Some((Seq::empty(), p1 + 1))
            } else if pos < p1 <= s.len() {
                sp_cmd_items(s, p1)
            } else {
                None
            }
        },
    }
}

/// A whole command-reply payload: the array, with nothing but whitespace
/// around it.
pub open spec fn sp_command_reply(s: Seq<u8>) -> Option<Seq<CommandResponse>> {
    match sp_cmd_array(s, sp_ws(s, 0)) {
        Some((v, end)) => if sp_ws(s, end) == s.len() {
            Some(v)
        } else {
            None
        },
        None => None,
    }
}

/// One or more workspace descriptors separated by commas, up to and
/// including the closing bracket.
pub open spec fn sp_ws_items(s: Seq<u8>, pos: int) -> Option<(Seq<WorkspaceView>, int)>
    decreases s.len() - pos,
{
    match sp_ws_obj(s, pos) {
        None => None,
        Some((w, p)) => if !(pos < p <= s.len()) {
            None
        } else {
            let p1 = sp_ws(s, p);
            if p1 < s.len() && s[p1] == 44 {
                let p2 = sp_ws(s, p1 + 1);
                if pos < p2 <= s.len() {
                    match sp_ws_items(s, p2) {
                        Some((rest, end)) => Some((seq![w] + rest, end)),
                        None => None,
                    }
                } else {
                    None
                }
            } else if p1 < s.len() && s[p1] == 93 {
                Some((seq![w], p1 + 1))
            } else {
                None
            }
        },
    }
}

/// A workspace-query reply: a bracketed array of workspace descriptors.
pub open spec fn sp_ws_array(s: Seq<u8>, pos: int) -> Option<(Seq<WorkspaceView>, int)> {
    match sp_lit(s, pos, seq![91u8]) {
        None => None,
        Some(p1raw) => {
            let p1 = sp_ws(s, p1raw);
            if p1 < s.len() && s[p1] == 93 {
                Some((Seq::empty(), p1 + 1))
            } else if pos < p1 <= s.len() {
                sp_ws_items(s, p1)
            } else {
                None
            }
        },
    }
}

/// A whole workspace-query payload: the array, with nothing but
/// whitespace around it.
pub open spec fn sp_workspaces_reply(s: Seq<u8>) -> Option<Seq<WorkspaceView>> {
    match sp_ws_array(s, sp_ws(s, 0)) {
        Some((v, end)) => if sp_ws(s, end) == s.len() {
            Some(v)
        } else {
            None
        },
        None => None,
    }
}

/// A whole subscription-acknowledgement payload: the object, with
/// nothing but whitespace around it.
pub open spec fn sp_subscribe_reply(s: Seq<u8>) -> Option<SubscribeResponse> {
    match sp_sub_obj(s, sp_ws(s, 0)) {
        Some((a, end)) => if sp_ws(s, end) == s.len() {
            Some(a)
        } else {
            None
        },
        None => None,
    }
}

fn lit_key(name: u8) -> (r: Vec<u8>)
    requires
        name < 13,
    ensures
        r@ == (if name == 0 {
            success_name()
        } else if name == 1 {
            parse_error_name()
        } else if name == 2 {
            num_name()
        } else if name == 3 {
            name_name()
        } else if name == 4 {
            visible_name()
        } else if name == 5 {
            focused_name()
        } else if name == 6 {
            urgent_name()
        } else if name == 7 {
            rect_name()
        } else if name == 8 {
            x_name()
        } else if name == 9 {
            y_name()
        } else if name == 10 {
            width_name()
        } else if name == 11 {
            height_name()
        } else {
            output_name()
        }),
{
    let r: Vec<u8> = if name == 0 {
        vec![115, 117, 99, 99, 101, 115, 115]
    } else if name == 1 {
        vec![112, 97, 114, 115, 101, 95, 101, 114, 114, 111, 114]
    } else if name == 2 {
        vec![110, 117, 109]
    } else if name == 3 {
        vec![110, 97, 109, 101]
    } else if name == 4 {
        vec![118, 105, 115, 105, 98, 108, 101]
    } else if name == 5 {
        vec![102, 111, 99, 117, 115, 101, 100]
    } else if name == 6 {
        vec![117, 114, 103, 101, 110, 116]
    } else if name == 7 {
        vec![114, 101, 99, 116]
    } else if name == 8 {
        vec![120]
    } else if name == 9 {
        vec![121]
    } else if name == 10 {
        vec![119, 105, 100, 116, 104]
    } else if name == 11 {
        vec![104, 101, 105, 103, 104, 116]
    } else {
        vec![111, 117, 116, 112, 117, 116]
    };
    proof {
        assert(r@ =~= (if name == 0 {
            success_name()
        } else if name == 1 {
            parse_error_name()
        } else if name == 2 {
            num_name()
        } else if name == 3 {
            name_name()
        } else if name == 4 {
            visible_name()
        } else if name == 5 {
            focused_name()
        } else if name == 6 {
            urgent_name()
        } else if name == 7 {
            rect_name()
        } else if name == 8 {
            x_name()
        } else if name == 9 {
            y_name()
        } else if name == 10 {
            width_name()
        } else if name == 11 {
            height_name()
        } else {
            output_name()
        }));
    }
    r
}

fn parse_member_key(s: &Vec<u8>, pos: usize) -> (r: Option<(Vec<u8>, usize)>)
    ensures
        match r {
            Some((key, p2)) => sp_member_key(s@, pos as int) == Some((key@, p2 as int))
                && pos < p2 <= s@.len(),
            None => sp_member_key(s@, pos as int) is None,
        },
{
    let (key, p) = match parse_string(s, pos) {
        Some(x) => x,
        None => {
            return None;
        },
    };
    let p1 = skip_ws(s, p);
    match expect_byte(s, p1, 58) {
        Some(p2raw) => Some((key, skip_ws(s, p2raw))),
        None => None,
    }
}

fn parse_cmd_members(s: &Vec<u8>, pos: usize, succ: Option<bool>, perr: Option<bool>) -> (r:
    Option<(CommandResponse, usize)>)
    ensures
        match r {
            Some((c, end)) => sp_cmd_members(s@, pos as int, succ, perr) == Some((c, end as int))
                && pos < end <= s@.len(),
            None => sp_cmd_members(s@, pos as int, succ, perr) is None,
        },
    decreases s@.len() - pos, 0int,
{
    let (key, p2) = match parse_member_key(s, pos) {
        Some(x) => x,
        None => {
            return None;
        },
    };
    let k_success = lit_key(0);
    let k_perr = lit_key(1);
    if bytes_eq(&key, &k_success) {
        if succ.is_some() {
            return None;
        }
        match parse_bool(s, p2) {
            Some((b, q)) => parse_cmd_after(s, q, Some(b), perr),
            None => None,
        }
    } else if bytes_eq(&key, &k_perr) {
        if perr.is_some() {
            return None;
        }
        match parse_bool(s, p2) {
            Some((b, q)) => parse_cmd_after(s, q, succ, Some(b)),
            None => None,
        }
    } else {
        match skip_value(s, p2) {
            Some(q) => parse_cmd_after(s, q, succ, perr),
            None => None,
        }
    }
}

fn parse_cmd_after(s: &Vec<u8>, pos: usize, succ: Option<bool>, perr: Option<bool>) -> (r:
    Option<(CommandResponse, usize)>)
    requires
        0 < pos <= s@.len(),
    ensures
        match r {
            Some((c, end)) => sp_cmd_after(s@, pos as int, succ, perr) == Some((c, end as int))
                && pos <= end <= s@.len(),
            None => sp_cmd_after(s@, pos as int, succ, perr) is None,
        },
    decreases s@.len() - pos, 1int,
{
    let p1 = skip_ws(s, pos);
    if p1 < s.len() && s[p1] == 44 {
        let p2 = skip_ws(s, p1 + 1);
        parse_cmd_members(s, p2, succ, perr)
    } else if p1 < s.len() && s[p1] == 125 {
        match succ {
            Some(b) => Some(
                (
                    CommandResponse {
                        success: b,
                        parse_error: match perr {
                            Some(pe) => pe,
                            None => false,
                        },
                    },
                    p1 + 1,
                ),
            ),
            None => None,
        }
    } else {
        None
    }
}

fn parse_cmd_obj(s: &Vec<u8>, pos: usize) -> (r: Option<(CommandResponse, usize)>)
    ensures
        match r {
            Some((c, end)) => sp_cmd_obj(s@, pos as int) == Some((c, end as int))
                && pos < end <= s@.len(),
            None => sp_cmd_obj(s@, pos as int) is None,
        },
{
    let p1raw = match expect_byte(s, pos, 123) {
        Some(p) => p,
        None => {
            return None;
        },
    };
    let p1 = skip_ws(s, p1raw);
    if p1 < s.len() && s[p1] == 125 {
        None
    } else {
        parse_cmd_members(s, p1, None, None)
    }
}

fn parse_sub_members(s: &Vec<u8>, pos: usize, succ: Option<bool>) -> (r: Option<
    (SubscribeResponse, usize),
>)
    ensures
        match r {
            Some((a, end)) => sp_sub_members(s@, pos as int, succ) == Some((a, end as int))
                && pos < end <= s@.len(),
            None => sp_sub_members(s@, pos as int, succ) is None,
        },
    decreases s@.len() - pos, 0int,
{
    let (key, p2) = match parse_member_key(s, pos) {
        Some(x) => x,
        None => {
            return None;
        },
    };
    let k_success = lit_key(0);
    if bytes_eq(&key, &k_success) {
        if succ.is_some() {
            return None;
        }
        match parse_bool(s, p2) {
            Some((b, q)) => parse_sub_after(s, q, Some(b)),
            None => None,
        }
    } else {
        match skip_value(s, p2) {
            Some(q) => parse_sub_after(s, q, succ),
            None => None,
        }
    }
}

fn parse_sub_after(s: &Vec<u8>, pos: usize, succ: Option<bool>) -> (r: Option<
    (SubscribeResponse, usize),
>)
    requires
        0 < pos <= s@.len(),
    ensures
        match r {
            Some((a, end)) => sp_sub_after(s@, pos as int, succ) == Some((a, end as int))
                && pos <= end <= s@.len(),
            None => sp_sub_after(s@, pos as int, succ) is None,
        },
    decreases s@.len() - pos, 1int,
{
    let p1 = skip_ws(s, pos);
    if p1 < s.len() && s[p1] == 44 {
        let p2 = skip_ws(s, p1 + 1);
        parse_sub_members(s, p2, succ)
    } else if p1 < s.len() && s[p1] == 125 {
        match succ {
            Some(b) => Some((SubscribeResponse { success: b }, p1 + 1)),
            None => None,
        }
    } else {
        None
    }
}

fn parse_sub_obj(s: &Vec<u8>, pos: usize) -> (r: Option<(SubscribeResponse, usize)>)
    ensures
        match r {
            Some((a, end)) => sp_sub_obj(s@, pos as int) == Some((a, end as int))
                && pos < end <= s@.len(),
            None => sp_sub_obj(s@, pos as int) is None,
        },
{
    let p1raw = match expect_byte(s, pos, 123) {
        Some(p) => p,
        None => {
            return None;
        },
    };
    let p1 = skip_ws(s, p1raw);
    if p1 < s.len() && s[p1] == 125 {
        None
    } else {
        parse_sub_members(s, p1, None)
    }
}

fn parse_rect_members(
    s: &Vec<u8>,
    pos: usize,
    x: Option<u64>,
    y: Option<u64>,
    width: Option<u64>,
    height: Option<u64>,
) -> (r: Option<(Rect, usize)>)
    ensures
        match r {
            Some((v, end)) => sp_rect_members(s@, pos as int, x, y, width, height) == Some(
                (v, end as int),
            ) && pos < end <= s@.len(),
            None => sp_rect_members(s@, pos as int, x, y, width, height) is None,
        },
    decreases s@.len() - pos, 0int,
{
    let (key, p2) = match parse_member_key(s, pos) {
        Some(k) => k,
        None => {
            return None;
        },
    };
    let k_x = lit_key(8);
    let k_y = lit_key(9);
    let k_width = lit_key(10);
    let k_height = lit_key(11);
    if bytes_eq(&key, &k_x) {
        if x.is_some() {
            return None;
        }
        match parse_u64(s, p2) {
            Some((v, q)) => parse_rect_after(s, q, Some(v), y, width, height),
            None => None,
        }
    } else if bytes_eq(&key, &k_y) {
        if y.is_some() {
            return None;
        }
        match parse_u64(s, p2) {
            Some((v, q)) => parse_rect_after(s, q, x, Some(v), width, height),
            None => None,
        }
    } else if bytes_eq(&key, &k_width) {
        if width.is_some() {
            return None;
        }
        match parse_u64(s, p2) {
            Some((v, q)) => parse_rect_after(s, q, x, y, Some(v), height),
            None => None,
        }
    } else if bytes_eq(&key, &k_height) {
        if height.is_some() {
            return None;
        }
        match parse_u64(s, p2) {
            Some((v, q)) => parse_rect_after(s, q, x, y, width, Some(v)),
            None => None,
        }
    } else {
        match skip_value(s, p2) {
            Some(q) => parse_rect_after(s, q, x, y, width, height),
            None => None,
        }
    }
}

fn parse_rect_after(
    s: &Vec<u8>,
    pos: usize,
    x: Option<u64>,
    y: Option<u64>,
    width: Option<u64>,
    height: Option<u64>,
) -> (r: Option<(Rect, usize)>)
    requires
        0 < pos <= s@.len(),
    ensures
        match r {
            Some((v, end)) => sp_rect_after(s@, pos as int, x, y, width, height) == Some(
                (v, end as int),
            ) && pos <= end <= s@.len(),
            None => sp_rect_after(s@, pos as int, x, y, width, height) is None,
        },
    decreases s@.len() - pos, 1int,
{
    let p1 = skip_ws(s, pos);
    if p1 < s.len() && s[p1] == 44 {
        let p2 = skip_ws(s, p1 + 1);
        parse_rect_members(s, p2, x, y, width, height)
    } else if p1 < s.len() && s[p1] == 125 {
        match (x, y, width, height) {
            (Some(xv), Some(yv), Some(wv), Some(hv)) => Some(
                (Rect { x: xv, y: yv, width: wv, height: hv }, p1 + 1),
            ),
            _ => None,
        }
    } else {
        None
    }
}

fn parse_rect_obj(s: &Vec<u8>, pos: usize) -> (r: Option<(Rect, usize)>)
    ensures
        match r {
            Some((v, end)) => sp_rect_obj(s@, pos as int) == Some((v, end as int))
                && pos < end <= s@.len(),
            None => sp_rect_obj(s@, pos as int) is None,
        },
{
    let p1raw = match expect_byte(s, pos, 123) {
        Some(p) => p,
        None => {
            return None;
        },
    };
    let p1 = skip_ws(s, p1raw);
    if p1 < s.len() && s[p1] == 125 {
        None
    } else {
        parse_rect_members(s, p1, None, None, None, None)
    }
}

/// The view of an optional byte vector.
pub open spec fn opt_bytes(o: Option<Vec<u8>>) -> Option<Seq<u8>> {
    match o {
        Some(v) => Some(v@),
        None => None,
    }
}

fn parse_ws_members(
    s: &Vec<u8>,
    pos: usize,
    num: Option<u64>,
    name: Option<Vec<u8>>,
    visible: Option<bool>,
    focused: Option<bool>,
    urgent: Option<bool>,
    rect: Option<Rect>,
    output: Option<Vec<u8>>,
) -> (r: Option<(WorkspaceResponse, usize)>)
    ensures
        match r {
            Some((w, end)) => sp_ws_members(
                s@,
                pos as int,
                num,
                opt_bytes(name),
                visible,
                focused,
                urgent,
                rect,
                opt_bytes(output),
            ) == Some((w@, end as int)) && pos < end <= s@.len(),
            None => sp_ws_members(
                s@,
                pos as int,
                num,
                opt_bytes(name),
                visible,
                focused,
                urgent,
                rect,
                opt_bytes(output),
            ) is None,
        },
    decreases s@.len() - pos, 0int,
{
    let (key, p2) = match parse_member_key(s, pos) {
        Some(k) => k,
        None => {
            return None;
        },
    };
    let k_num = lit_key(2);
    let k_name = lit_key(3);
    let k_visible = lit_key(4);
    let k_focused = lit_key(5);
    let k_urgent = lit_key(6);
    let k_rect = lit_key(7);
    let k_output = lit_key(12);
    if bytes_eq(&key, &k_num) {
        if num.is_some() {
            return None;
        }
        match parse_u64(s, p2) {
            Some((v, q)) => parse_ws_after(s, q, Some(v), name, visible, focused, urgent, rect, output),
            None => None,
        }
    } else if bytes_eq(&key, &k_name) {
        if name.is_some() {
            return None;
        }
        match parse_string(s, p2) {
            Some((v, q)) => parse_ws_after(s, q, num, Some(v), visible, focused, urgent, rect, output),
            None => None,
        }
    } else if bytes_eq(&key, &k_visible) {
        if visible.is_some() {
            return None;
        }
        match parse_bool(s, p2) {
            Some((v, q)) => parse_ws_after(s, q, num, name, Some(v), focused, urgent, rect, output),
            None => None,
        }
    } else if bytes_eq(&key, &k_focused) {
        if focused.is_some() {
            return None;
        }
        match parse_bool(s, p2) {
            Some((v, q)) => parse_ws_after(s, q, num, name, visible, Some(v), urgent, rect, output),
            None => None,
        }
    } else if bytes_eq(&key, &k_urgent) {
        if urgent.is_some() {
            return None;
        }
        match parse_bool(s, p2) {
            Some((v, q)) => parse_ws_after(s, q, num, name, visible, focused, Some(v), rect, output),
            None => None,
        }
    } else if bytes_eq(&key, &k_rect) {
        if rect.is_some() {
            return None;
        }
        match parse_rect_obj(s, p2) {
            Some((v, q)) => parse_ws_after(s, q, num, name, visible, focused, urgent, Some(v), output),
            None => None,
        }
    } else if bytes_eq(&key, &k_output) {
        if output.is_some() {
            return None;
        }
        match parse_string(s, p2) {
            Some((v, q)) => parse_ws_after(s, q, num, name, visible, focused, urgent, rect, Some(v)),
            None => None,
        }
    } else {
        match skip_value(s, p2) {
            Some(q) => parse_ws_after(s, q, num, name, visible, focused, urgent, rect, output),
            None => None,
        }
    }
}

fn parse_ws_after(
    s: &Vec<u8>,
    pos: usize,
    num: Option<u64>,
    name: Option<Vec<u8>>,
    visible: Option<bool>,
    focused: Option<bool>,
    urgent: Option<bool>,
    rect: Option<Rect>,
    output: Option<Vec<u8>>,
) -> (r: Option<(WorkspaceResponse, usize)>)
    requires
        0 < pos <= s@.len(),
    ensures
        match r {
            Some((w, end)) => sp_ws_after(
                s@,
                pos as int,
                num,
                opt_bytes(name),
                visible,
                focused,
                urgent,
                rect,
                opt_bytes(output),
            ) == Some((w@, end as int)) && pos <= end <= s@.len(),
            None => sp_ws_after(
                s@,
                pos as int,
                num,
                opt_bytes(name),
                visible,
                focused,
                urgent,
                rect,
                opt_bytes(output),
            ) is None,
        },
    decreases s@.len() - pos, 1int,
{
    let p1 = skip_ws(s, pos);
    if p1 < s.len() && s[p1] == 44 {
        let p2 = skip_ws(s, p1 + 1);
        parse_ws_members(s, p2, num, name, visible, focused, urgent, rect, output)
    } else if p1 < s.len() && s[p1] == 125 {
        match (num, name, visible, focused, urgent, rect, output) {
            (
                Some(numv),
                Some(namev),
                Some(visiblev),
                Some(focusedv),
                Some(urgentv),
                Some(rectv),
                Some(outputv),
            ) => Some(
                (
                    WorkspaceResponse {
                        num: numv,
                        name: namev,
                        visible: visiblev,
                        focused: focusedv,
                        urgent: urgentv,
                        rect: rectv,
                        output: outputv,
                    },
                    p1 + 1,
                ),
            ),
            _ => None,
        }
    } else {
        None
    }
}

fn parse_ws_obj(s: &Vec<u8>, pos: usize) -> (r: Option<(WorkspaceResponse, usize)>)
    ensures
        match r {
            Some((w, end)) => sp_ws_obj(s@, pos as int) == Some((w@, end as int))
                && pos < end <= s@.len(),
            None => sp_ws_obj(s@, pos as int) is None,
        },
{
    let p1raw = match expect_byte(s, pos, 123) {
        Some(p) => p,
        None => {
            return None;
        },
    };
    let p1 = skip_ws(s, p1raw);
    if p1 < s.len() && s[p1] == 125 {
        None
    } else {
        parse_ws_members(s, p1, None, None, None, None, None, None, None)
    }
}

fn parse_cmd_items(s: &Vec<u8>, pos: usize) -> (r: Option<(Vec<CommandResponse>, usize)>)
    ensures
        match r {
            Some((v, end)) => sp_cmd_items(s@, pos as int) == Some((v@, end as int))
                && pos < end <= s@.len(),
            None => sp_cmd_items(s@, pos as int) is None,
        },
    decreases s@.len() - pos,
{
    let (c, p) = match parse_cmd_obj(s, pos) {
        Some(x) => x,
        None => {
            return None;
        },
    };
    let p1 = skip_ws(s, p);
    if p1 < s.len() && s[p1] == 44 {
        let p2 = skip_ws(s, p1 + 1);
        match parse_cmd_items(s, p2) {
            Some((rest, end)) => {
                let mut v: Vec<CommandResponse> = Vec::new();
                v.push(c);
                let mut rest = rest;
                let ghost rest_view = rest@;
                v.append(&mut rest);
                proof {
                    assert(v@ =~= seq![c] + rest_view);
                }
                Some((v, end))
            },
            None => None,
        }
    } else if p1 < s.len() && s[p1] == 93 {
        let v: Vec<CommandResponse> = vec![c];
        proof {
            assert(v@ =~= seq![c]);
        }
        Some((v, p1 + 1))
    } else {
        None
    }
}

/// Decode a whole command-reply payload.
pub fn parse_command_reply(s: &Vec<u8>) -> (r: Result<Vec<CommandResponse>, DecodeError>)
    ensures
        match r {
            Ok(v) => sp_command_reply(s@) == Some(v@),
            Err(e) => sp_command_reply(s@) is None && e == DecodeError::ShapeMismatch,
        },
{
    let p0 = skip_ws(s, 0);
    let p1raw = match expect_byte(s, p0, 91) {
        Some(p) => p,
        None => {
            return Err(DecodeError::ShapeMismatch);
        },
    };
    let p1 = skip_ws(s, p1raw);
    let (v, end) = if p1 < s.len() && s[p1] == 93 {
        (Vec::new(), p1 + 1)
    } else {
        match parse_cmd_items(s, p1) {
            Some(x) => x,
            None => {
                return Err(DecodeError::ShapeMismatch);
            },
        }
    };
    if skip_ws(s, end) == s.len() {
        Ok(v)
    } else {
        Err(DecodeError::ShapeMismatch)
    }
}

fn parse_ws_items(s: &Vec<u8>, pos: usize) -> (r: Option<(Vec<WorkspaceResponse>, usize)>)
    ensures
        match r {
            Some((v, end)) => sp_ws_items(s@, pos as int) == Some((workspace_views(v@), end as int))
                && pos < end <= s@.len(),
            None => sp_ws_items(s@, pos as int) is None,
        },
    decreases s@.len() - pos,
{
    let (w, p) = match parse_ws_obj(s, pos) {
        Some(x) => x,
        None => {
            return None;
        },
    };
    let ghost w_view = w@;
    let p1 = skip_ws(s, p);
    if p1 < s.len() && s[p1] == 44 {
        let p2 = skip_ws(s, p1 + 1);
        match parse_ws_items(s, p2) {
            Some((rest, end)) => {
                let mut v: Vec<WorkspaceResponse> = Vec::new();
                v.push(w);
                let mut rest = rest;
                let ghost rest_view = rest@;
                v.append(&mut rest);
                proof {
                    assert(workspace_views(v@) =~= seq![w_view] + workspace_views(rest_view));
                }
                Some((v, end))
            },
            None => None,
        }
    } else if p1 < s.len() && s[p1] == 93 {
        let v: Vec<WorkspaceResponse> = vec![w];
        proof {
            assert(workspace_views(v@) =~= seq![w_view]);
        }
        Some((v, p1 + 1))
    } else {
        None
    }
}

/// Decode a whole workspace-query payload.
pub fn parse_workspaces_reply(s: &Vec<u8>) -> (r: Result<Vec<WorkspaceResponse>, DecodeError>)
    ensures
        match r {
            Ok(v) => sp_workspaces_reply(s@) == Some(workspace_views(v@)),
            Err(e) => sp_workspaces_reply(s@) is None && e == DecodeError::ShapeMismatch,
        },
{
    let p0 = skip_ws(s, 0);
    let p1raw = match expect_byte(s, p0, 91) {
        Some(p) => p,
        None => {
            return Err(DecodeError::ShapeMismatch);
        },
    };
    let p1 = skip_ws(s, p1raw);
    let (v, end) = if p1 < s.len() && s[p1] == 93 {
        let v: Vec<WorkspaceResponse> = Vec::new();
        proof {
            assert(workspace_views(v@) =~= Seq::<WorkspaceView>::empty());
        }
        (v, p1 + 1)
    } else {
        match parse_ws_items(s, p1) {
            Some(x) => x,
            None => {
                return Err(DecodeError::ShapeMismatch);
            },
        }
    };
    if skip_ws(s, end) == s.len() {
        Ok(v)
    } else {
        Err(DecodeError::ShapeMismatch)
    }
}

/// Decode a whole subscription-acknowledgement payload.
pub fn parse_subscribe_reply(s: &Vec<u8>) -> (r: Result<SubscribeResponse, DecodeError>)
    ensures
        match r {
            Ok(a) => sp_subscribe_reply(s@) == Some(a),
            Err(e) => sp_subscribe_reply(s@) is None && e == DecodeError::ShapeMismatch,
        },
{
    let p0 = skip_ws(s, 0);
    let (a, end) = match parse_sub_obj(s, p0) {
        Some(x) => x,
        None => {
            return Err(DecodeError::ShapeMismatch);
        },
    };
    if skip_ws(s, end) == s.len() {
        Ok(a)
    } else {
        Err(DecodeError::ShapeMismatch)
    }
}

/// Whether a decode result is exactly what the registry's rules give for
/// this kind's reply shape: the matching variant on a matching payload, a
/// shape-mismatch error otherwise.
pub open spec fn reply_decodes_as(
    kind: Message,
    payload: Seq<u8>,
    r: Result<Response, DecodeError>,
) -> bool {
    match kind {
        Message::RunCommand => match r {
            Ok(Response::RunCommand(v)) => sp_command_reply(payload) == Some(v@),
            Err(e) => sp_command_reply(payload) is None && e == DecodeError::ShapeMismatch,
            _ => false,
        },
        Message::GetWorkspace => match r {
            Ok(Response::GetWorkspace(v)) => sp_workspaces_reply(payload) == Some(
                workspace_views(v@),
            ),
            Err(e) => sp_workspaces_reply(payload) is None && e == DecodeError::ShapeMismatch,
            _ => false,
        },
        Message::Subscribe => match r {
            Ok(Response::Subscribe(a)) => sp_subscribe_reply(payload) == Some(a),
            Err(e) => sp_subscribe_reply(payload) is None && e == DecodeError::ShapeMismatch,
            _ => false,
        },
    }
}

/// Decode a reply payload according to the request kind that produced it.
/// Each kind accepts exactly its own shape; a mismatch is an error, and
/// the returned variant always corresponds to the kind.
pub fn response_to_json(message_type: Message, response: &Vec<u8>) -> (r: Result<
    Response,
    DecodeError,
>)
    ensures
        reply_decodes_as(message_type, response@, r),
{
    match message_type {
        Message::RunCommand => match parse_command_reply(response) {
            Ok(v) => Ok(Response::RunCommand(v)),
            Err(e) => Err(e),
        },
        Message::GetWorkspace => match parse_workspaces_reply(response) {
            Ok(v) => Ok(Response::GetWorkspace(v)),
            Err(e) => Err(e),
        },
        Message::Subscribe => match parse_subscribe_reply(response) {
            Ok(a) => Ok(Response::Subscribe(a)),
            Err(e) => Err(e),
        },
    }
}

/// Kind-locked decoding across the two payload families: a payload that
/// decodes as a command reply or a workspace-query reply (an array) never
/// decodes as a subscription acknowledgement (an object), and the other
/// way round, whatever whitespace surrounds it.
pub proof fn lemma_kind_locked_decoding(s: Seq<u8>)
    ensures
        sp_command_reply(s) is Some || sp_workspaces_reply(s) is Some
            ==> sp_subscribe_reply(s) is None,
        sp_subscribe_reply(s) is Some ==> sp_command_reply(s) is None && sp_workspaces_reply(s)
            is None,
{
    let p0 = sp_ws(s, 0);
    if sp_command_reply(s) is Some || sp_workspaces_reply(s) is Some {
        assert(s.subrange(p0, p0 + 1)[0] == s[p0]);
    }
    if sp_subscribe_reply(s) is Some {
        assert(s.subrange(p0, p0 + 1)[0] == s[p0]);
    }
}

} // verus!
