//! Reading the device list that `adb devices -l` prints.

use vstd::prelude::*;
use vstd::string::*;
use crate::text::{lines, words, trim, split_lines, split_words, trim_str, chars_of};
use crate::command::CommandResult;
use crate::args::{model_query_args, model_query_argv};

verus! {

/// One attached device: its serial, its state (such as "device" or
/// "offline"), and its model name.
pub struct Device {
    pub device_id: String,
    pub status: String,
    pub model: String,
}

/// A device as three character sequences: serial, state, model.
pub type DeviceView = (Seq<char>, Seq<char>, Seq<char>);

impl Device {
    pub open spec fn view_of(&self) -> DeviceView {
        (self.device_id@, self.status@, self.model@)
    }
}

/// The views of a list of devices.
pub open spec fn device_views(v: Seq<Device>) -> Seq<DeviceView> {
    v.map_values(|d: Device| d.view_of())
}

/// Whether `p` begins with `pre`.
pub open spec fn has_prefix(p: Seq<char>, pre: Seq<char>) -> bool {
    pre.len() <= p.len() && p.take(pre.len() as int) == pre
}

/// The model named by the first of `parts` of the form `model:<name>`, or
/// nothing when none is.
pub open spec fn model_field(parts: Seq<Seq<char>>) -> Seq<char>
    decreases parts.len(),
{
    if parts.len() == 0 {
        Seq::<char>::empty()
    } else if has_prefix(parts[0], "model:"@) {
        parts[0].skip("model:"@.len() as int)
    } else {
        model_field(parts.drop_first())
    }
}

/// The device that one line of the listing describes: its first two words
/// are the serial and the state, and a later `model:` word names the model.
/// A line of fewer than two words describes none.
pub open spec fn device_of_line(line: Seq<char>) -> Option<DeviceView> {
    let parts = words(trim(line));
    if parts.len() >= 2 {
        Some((parts[0], parts[1], model_field(parts.skip(2))))
    } else {
        None
    }
}

/// The devices that `ls` describe, in order.
pub open spec fn devices_of_lines(ls: Seq<Seq<char>>) -> Seq<DeviceView>
    decreases ls.len(),
{
    if ls.len() == 0 {
        Seq::<DeviceView>::empty()
    } else {
        let d = devices_of_lines(ls.drop_last());
        match device_of_line(ls.last()) {
            Some(x) => d.push(x),
            None => d,
        }
    }
}

/// The devices that a listing describes: every line after the first (which
/// is a heading) that holds at least two words.
pub open spec fn listed_devices(listing: Seq<char>) -> Seq<DeviceView> {
    let ls = lines(listing);
    devices_of_lines(
        if ls.len() > 0 {
            ls.drop_first()
        } else {
            ls
        },
    )
}

/// The model name recorded for a device whose listing did not name one,
/// from the answer to asking it: the answer's text, or "Unknown" when the
/// question failed.
pub open spec fn queried_model(answer_ok: bool, answer: Seq<char>) -> Seq<char> {
    if answer_ok {
        trim(answer)
    } else {
        "Unknown"@
    }
}

/// The model named by the first of `parts[from..]` that begins with `model:`.
fn find_model(parts: &Vec<String>, from: usize) -> (r: String)
    requires
        from <= parts@.len(),
    ensures
        r@ == model_field(crate::text::views(parts@).skip(from as int)),
{
    let prefix = chars_of("model:");
    let mut k = from;
    while k < parts.len()
        invariant
            from <= k <= parts@.len(),
            prefix@ == "model:"@,
            model_field(crate::text::views(parts@).skip(from as int)) == model_field(
                crate::text::views(parts@).skip(k as int),
            ),
        decreases parts@.len() - k,
    {
        let ghost rest = crate::text::views(parts@).skip(k as int);
        assert(rest[0] == parts@[k as int]@);
        assert(rest.drop_first() =~= crate::text::views(parts@).skip(k + 1));
        let cs = chars_of(parts[k].as_str());
        if prefix.len() <= cs.len() && starts_with(&cs, &prefix) {
            let n = cs.len();
            let m = prefix.len();
            return String::from_str(parts[k].as_str().substring_char(m, n));
        }
        k = k + 1;
    }
    assert(crate::text::views(parts@).skip(k as int) =~= Seq::<Seq<char>>::empty());
    String::new()
}

/// Whether `cs` begins with `pre`.
fn starts_with(cs: &Vec<char>, pre: &Vec<char>) -> (b: bool)
    requires
        pre@.len() <= cs@.len(),
    ensures
        b == (cs@.take(pre@.len() as int) == pre@),
{
    let m = pre.len();
    let mut k: usize = 0;
    while k < m
        invariant
            m == pre@.len(),
            m <= cs@.len(),
            k <= m,
            forall|q: int| 0 <= q < k ==> cs@[q] == pre@[q],
        decreases m - k,
    {
        if cs[k] != pre[k] {
            assert(cs@.take(m as int)[k as int] != pre@[k as int]);
            return false;
        }
        k = k + 1;
    }
    assert(cs@.take(m as int) =~= pre@);
    true
}

/// The device that one line of the listing describes, if any.
pub fn parse_device_line(line: &str) -> (r: Option<Device>)
    ensures
        match r {
            Some(d) => device_of_line(line@) == Some(d.view_of()),
            None => device_of_line(line@) is None,
        },
{
    let trimmed = trim_str(line);
    let parts = split_words(trimmed.as_str());
    if parts.len() >= 2 {
        let model = find_model(&parts, 2);
        Some(Device { device_id: parts[0].clone(), status: parts[1].clone(), model })
    } else {
        None
    }
}

/// The devices that the output of `adb devices -l` describes, in order, with
/// the model left empty where the listing does not name it.
pub fn parse_devices(listing: &str) -> (r: Vec<Device>)
    ensures
        device_views(r@) == listed_devices(listing@),
{
    let ls = split_lines(listing);
    let ghost lv = crate::text::views(ls@);
    let ghost body = if lv.len() > 0 { lv.drop_first() } else { lv };
    let mut r: Vec<Device> = Vec::new();
    let mut k: usize = 1;
    while k < ls.len()
        invariant
            1 <= k,
            lv == crate::text::views(ls@),
            body == if lv.len() > 0 { lv.drop_first() } else { lv },
            lv.len() > 0 ==> k <= lv.len(),
            lv.len() > 0 ==> device_views(r@) == devices_of_lines(body.take(k - 1)),
            lv.len() == 0 ==> r@.len() == 0,
        decreases ls@.len() - k,
    {
        assert(body.take(k as int).drop_last() =~= body.take(k - 1));
        assert(body.take(k as int).last() == ls@[k as int]@);
        let ghost before = device_views(r@);
        match parse_device_line(ls[k].as_str()) {
            Some(d) => {
                r.push(d);
                assert(device_views(r@) =~= before.push(r@.last().view_of()));
            },
            None => {},
        }
        k = k + 1;
    }
    proof {
        if lv.len() > 0 {
            assert(body.take(k - 1) =~= body);
        } else {
            assert(device_views(r@) =~= Seq::<DeviceView>::empty());
        }
    }
    r
}

/// The devices that the listing command reports: none when it failed.
pub fn devices_from_listing(listing: &CommandResult) -> (r: Vec<Device>)
    ensures
        device_views(r@) == if listing.success {
            listed_devices(listing.output@)
        } else {
            Seq::<DeviceView>::empty()
        },
{
    if !listing.success {
        let r: Vec<Device> = Vec::new();
        assert(device_views(r@) =~= Seq::<DeviceView>::empty());
        return r;
    }
    parse_devices(listing.output.as_str())
}

/// Whether the listing left a device's model unnamed, so that the device must
/// be asked for it.
pub fn needs_model_query(d: &Device) -> (b: bool)
    ensures
        b == (d.model@.len() == 0),
{
    d.model.as_str().is_empty()
}

/// `d` with its model taken from the answer to asking the device.
pub fn with_queried_model(d: Device, answer: &CommandResult) -> (r: Device)
    ensures
        r.device_id@ == d.device_id@,
        r.status@ == d.status@,
        r.model@ == queried_model(answer.success, answer.output@),
{
    let model = if answer.success {
        trim_str(answer.output.as_str())
    } else {
        String::from_str("Unknown")
    };
    Device { device_id: d.device_id, status: d.status, model }
}

/// A copy of `d`.
fn copy_device(d: &Device) -> (r: Device)
    ensures
        r.view_of() == d.view_of(),
{
    Device { device_id: d.device_id.clone(), status: d.status.clone(), model: d.model.clone() }
}

/// `done` stands for the first `done.len()` devices of `listed`: same serial
/// and state, and the listed model wherever the listing named one.
pub open spec fn faithful(listed: Seq<DeviceView>, done: Seq<DeviceView>) -> bool {
    &&& done.len() <= listed.len()
    &&& forall|k: int|
        0 <= k < done.len() ==> #[trigger] done[k].0 == listed[k].0 && done[k].1 == listed[k].1
            && (listed[k].2.len() > 0 ==> done[k].2 == listed[k].2)
}

/// `done` extended with the following listed devices, as listed, up to the
/// next one whose model the listing does not name.
pub open spec fn pass_named(listed: Seq<DeviceView>, done: Seq<DeviceView>) -> Seq<DeviceView>
    decreases listed.len() - done.len(),
{
    if done.len() < listed.len() && listed[done.len() as int].2.len() > 0 {
        pass_named(listed, done.push(listed[done.len() as int]))
    } else {
        done
    }
}

/// A walk over the listed devices, by views: the devices listed, and the
/// devices settled so far.
pub struct DeviceScanView {
    pub listed: Seq<DeviceView>,
    pub done: Seq<DeviceView>,
}

/// The walk waits on the device at position `done.len()`, whose model the
/// listing does not name, and what it has settled stands for the devices
/// before it.
pub open spec fn awaits_model(v: DeviceScanView) -> bool {
    &&& faithful(v.listed, v.done)
    &&& v.done.len() < v.listed.len()
    &&& v.listed[v.done.len() as int].2.len() == 0
}

/// What a walk over the devices does next: ask a device its model and go on
/// in the given state, or end with the given devices.
pub enum ScanMove {
    Query(DeviceScanView, Seq<Seq<char>>),
    Done(Seq<DeviceView>),
}

/// Go on from `done`: take the following devices whose models are named as
/// they are, then ask the next device that has none, or end when no device is
/// left.
pub open spec fn scan_from(listed: Seq<DeviceView>, done: Seq<DeviceView>) -> ScanMove {
    let d = pass_named(listed, done);
    if d.len() < listed.len() {
        ScanMove::Query(
            DeviceScanView { listed, done: d },
            model_query_argv(listed[d.len() as int].0),
        )
    } else {
        ScanMove::Done(d)
    }
}

/// The devices to walk over: those a successful listing names, none when it
/// failed.
pub open spec fn scanned_devices(listing: (bool, Seq<char>)) -> Seq<DeviceView> {
    if listing.0 {
        listed_devices(listing.1)
    } else {
        Seq::<DeviceView>::empty()
    }
}

/// What the walk does once the device it asked reports `answer`: that device
/// is settled with the model taken from the answer, and the walk goes on.
pub open spec fn scan_next(s: DeviceScanView, answer: (bool, Seq<char>)) -> ScanMove {
    let i = s.done.len() as int;
    scan_from(
        s.listed,
        s.done.push((s.listed[i].0, s.listed[i].1, queried_model(answer.0, answer.1))),
    )
}

/// A walk over the listed devices that waits on the answer of the device at
/// position `done.len()`, whose model the listing does not name.
pub struct DeviceScan {
    listed: Vec<Device>,
    done: Vec<Device>,
}

impl View for DeviceScan {
    type V = DeviceScanView;

    closed spec fn view(&self) -> DeviceScanView {
        DeviceScanView { listed: device_views(self.listed@), done: device_views(self.done@) }
    }
}

/// What a walk over the devices does next.
pub enum ScanStep {
    Query(DeviceScan, Vec<String>),
    Done(Vec<Device>),
}

impl View for ScanStep {
    type V = ScanMove;

    open spec fn view(&self) -> ScanMove {
        match self {
            ScanStep::Query(s, a) => ScanMove::Query(s@, crate::text::views(a@)),
            ScanStep::Done(d) => ScanMove::Done(device_views(d@)),
        }
    }
}

impl DeviceScan {
    /// The walk waits on a device that the listing left without a model, and
    /// what it has settled stands for the devices before it.
    #[verifier::type_invariant]
    closed spec fn waiting(self) -> bool {
        awaits_model(self@)
    }

    /// Go on from `done`, as `scan_from` says.
    fn settle(listed: Vec<Device>, done: Vec<Device>) -> (r: ScanStep)
        requires
            faithful(device_views(listed@), device_views(done@)),
        ensures
            r@ == scan_from(device_views(listed@), device_views(done@)),
    {
        let ghost lv = device_views(listed@);
        let ghost d0 = device_views(done@);
        let mut done = done;
        while done.len() < listed.len() && !listed[done.len()].model.as_str().is_empty()
            invariant
                lv == device_views(listed@),
                faithful(lv, device_views(done@)),
                pass_named(lv, device_views(done@)) == pass_named(lv, d0),
            decreases listed@.len() - done@.len(),
        {
            let k = done.len();
            let ghost before = device_views(done@);
            assert(listed@[k as int].model@.len() > 0);
            done.push(copy_device(&listed[k]));
            assert(device_views(done@) =~= before.push(lv[k as int]));
        }
        proof {
            assert(pass_named(lv, device_views(done@)) == device_views(done@));
        }
        if done.len() < listed.len() {
            let argv = model_query_args(listed[done.len()].device_id.as_str());
            ScanStep::Query(DeviceScan { listed, done }, argv)
        } else {
            ScanStep::Done(done)
        }
    }

    /// Begin walking over the devices that `listing` names: none when it
    /// failed.
    pub fn start(listing: &CommandResult) -> (r: ScanStep)
        ensures
            r@ == scan_from(scanned_devices(listing@), Seq::<DeviceView>::empty()),
    {
        let listed = devices_from_listing(listing);
        let done: Vec<Device> = Vec::new();
        assert(device_views(done@) =~= Seq::<DeviceView>::empty());
        Self::settle(listed, done)
    }

    /// The next step once the device waited on has given `answer` to the
    /// question of its model.
    pub fn advance(self, answer: &CommandResult) -> (r: ScanStep)
        ensures
            awaits_model(self@),
            r@ == scan_next(self@, answer@),
    {
        proof {
            use_type_invariant(&self);
        }
        let ghost v = self@;
        let DeviceScan { listed, done } = self;
        let mut done = done;
        let k = done.len();
        let current = copy_device(&listed[k]);
        let filled = with_queried_model(current, answer);
        let ghost before = device_views(done@);
        done.push(filled);
        assert(device_views(done@) =~= before.push(
            (v.listed[k as int].0, v.listed[k as int].1, queried_model(answer.success, answer.output@)),
        ));
        Self::settle(listed, done)
    }
}

} // verus!
