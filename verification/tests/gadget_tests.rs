use std::collections::BTreeMap;

use switch_pro_gadget::action::Action;
use switch_pro_gadget::action::Outcome;
use switch_pro_gadget::descriptor::report_descriptor;
use switch_pro_gadget::error::GadgetError;
use switch_pro_gadget::gadget::Phase;
use switch_pro_gadget::gadget::UsbGadget;
use switch_pro_gadget::plan::Plan;
use switch_pro_gadget::plan::Step;
use switch_pro_gadget::plan::StepKind;

const ROOT: &str = "/sys/kernel/config/usb_gadget/switch_pro";

#[derive(Debug, Clone, PartialEq, Eq)]
enum Node {
    Dir,
    File(Vec<u8>),
    Link(String),
}

/// A file system in memory, with the modules that were asked for, the
/// actions that came in, and one path at which nothing can be made or
/// written.
#[derive(Debug, PartialEq, Eq)]
struct Tree {
    nodes: BTreeMap<String, Node>,
    modules: Vec<String>,
    log: Vec<Action>,
    broken: Option<String>,
    broken_kind: Outcome,
}

fn copy_of(action: &Action) -> Action {
    match action {
        Action::LoadModule { name } => Action::LoadModule { name: name.clone() },
        Action::Probe { path } => Action::Probe { path: path.clone() },
        Action::CreateDir { path } => Action::CreateDir { path: path.clone() },
        Action::Write { path, data } => Action::Write { path: path.clone(), data: data.clone() },
        Action::Remove { path } => Action::Remove { path: path.clone() },
        Action::Symlink { target, link } => {
            Action::Symlink { target: target.clone(), link: link.clone() }
        }
        Action::Finished { verdict } => Action::Finished {
            verdict: match verdict {
                Ok(()) => Ok(()),
                Err(e) => Err(e.duplicate()),
            },
        },
    }
}

fn parent(path: &str) -> String {
    match path.rfind('/') {
        Some(0) | None => String::from("/"),
        Some(i) => String::from(&path[..i]),
    }
}

impl Tree {
    fn new() -> Tree {
        let mut nodes = BTreeMap::new();
        nodes.insert(String::from("/"), Node::Dir);
        nodes.insert(String::from("/sys"), Node::Dir);
        nodes.insert(String::from("/sys/kernel"), Node::Dir);
        nodes.insert(String::from("/sys/kernel/config"), Node::Dir);
        nodes.insert(String::from("/sys/kernel/config/usb_gadget"), Node::Dir);
        Tree { nodes, modules: vec![], log: vec![], broken: None, broken_kind: Outcome::Failed }
    }

    fn fails(&self, path: &str) -> bool {
        self.broken.as_deref() == Some(path)
    }

    fn has_dir(&self, path: &str) -> bool {
        self.nodes.get(path) == Some(&Node::Dir)
    }

    fn file(&self, sub: &str) -> Option<Vec<u8>> {
        match self.nodes.get(&format!("{}{}", ROOT, sub)) {
            Some(Node::File(data)) => Some(data.clone()),
            _ => None,
        }
    }

    fn perform(&mut self, action: &Action) -> Outcome {
        self.log.push(copy_of(action));
        match action {
            Action::LoadModule { name } => {
                if self.fails(name) {
                    return self.broken_kind;
                }
                self.modules.push(name.clone());
                Outcome::Done
            }
            Action::Probe { path } => {
                if self.nodes.contains_key(path) {
                    Outcome::Done
                } else {
                    Outcome::Missing
                }
            }
            Action::CreateDir { path } => {
                if self.fails(path) {
                    return self.broken_kind;
                }
                let mut at = path.clone();
                let mut missing = vec![];
                while !self.nodes.contains_key(&at) {
                    missing.push(at.clone());
                    at = parent(&at);
                }
                if !self.has_dir(&at) {
                    return Outcome::Failed;
                }
                for p in missing {
                    self.nodes.insert(p, Node::Dir);
                }
                Outcome::Done
            }
            Action::Write { path, data } => {
                if self.fails(path) {
                    return self.broken_kind;
                }
                if !self.has_dir(&parent(path)) {
                    return Outcome::Missing;
                }
                self.nodes.insert(path.clone(), Node::File(data.clone()));
                Outcome::Done
            }
            Action::Remove { path } => {
                match self.nodes.remove(path) {
                    Some(_) => Outcome::Done,
                    None => Outcome::Missing,
                }
            }
            Action::Symlink { target, link } => {
                if self.fails(link) {
                    return self.broken_kind;
                }
                if !self.has_dir(&parent(link)) {
                    return Outcome::Missing;
                }
                if self.nodes.contains_key(link) {
                    return Outcome::Failed;
                }
                self.nodes.insert(link.clone(), Node::Link(target.clone()));
                Outcome::Done
            }
            Action::Finished { .. } => Outcome::Done,
        }
    }

    fn mutations(&self) -> Vec<&Action> {
        self.log
            .iter()
            .filter(|a| {
                matches!(
                    a,
                    Action::CreateDir { .. }
                        | Action::Write { .. }
                        | Action::Remove { .. }
                        | Action::Symlink { .. }
                )
            })
            .collect()
    }
}

/// Performs actions on the tree until the request ends, and gives its
/// verdict.
fn drive(gadget: &mut UsbGadget, tree: &mut Tree, first: Action) -> Result<(), GadgetError> {
    let mut action = first;
    for _ in 0..200 {
        if let Action::Finished { verdict } = action {
            tree.log.push(Action::Finished {
                verdict: match &verdict {
                    Ok(()) => Ok(()),
                    Err(e) => Err(e.duplicate()),
                },
            });
            return verdict;
        }
        let outcome = tree.perform(&action);
        action = gadget.advance(outcome);
    }
    panic!("the request did not end");
}

fn loaded(udc: &str) -> (UsbGadget, Tree) {
    let mut gadget = UsbGadget::new(udc);
    let mut tree = Tree::new();
    let first = gadget.load_kernel_modules();
    assert_eq!(drive(&mut gadget, &mut tree, first), Ok(()));
    tree.log.clear();
    (gadget, tree)
}

fn provisioned(udc: &str) -> (UsbGadget, Tree) {
    let (mut gadget, mut tree) = loaded(udc);
    let first = gadget.setup_configfs();
    assert_eq!(drive(&mut gadget, &mut tree, first), Ok(()));
    (gadget, tree)
}

fn path(sub: &str) -> String {
    format!("{}{}", ROOT, sub)
}

fn write(sub: &str, data: &[u8]) -> Action {
    Action::Write { path: path(sub), data: data.to_vec() }
}

fn expected_provisioning(udc: &str, with_undo: bool) -> Vec<Action> {
    let mut v = vec![Action::Probe { path: path("/UDC") }];
    if with_undo {
        v.push(write("/UDC", b""));
    }
    v.push(Action::Probe { path: path("/configs/c.1/hid.usb0") });
    if with_undo {
        v.push(Action::Remove { path: path("/configs/c.1/hid.usb0") });
    }
    v.push(Action::CreateDir { path: path("") });
    v.push(write("/idVendor", b"0x057e"));
    v.push(write("/idProduct", b"0x2009"));
    v.push(write("/bcdDevice", b"0x0100"));
    v.push(write("/bcdUSB", b"0x0200"));
    v.push(write("/bDeviceClass", b"0x00"));
    v.push(write("/bDeviceSubClass", b"0x00"));
    v.push(write("/bDeviceProtocol", b"0x00"));
    v.push(write("/bMaxPacketSize0", b"64"));
    v.push(Action::CreateDir { path: path("/strings/0x409") });
    v.push(write("/strings/0x409/manufacturer", b"Nintendo"));
    v.push(write("/strings/0x409/product", b"Pro Controller"));
    v.push(Action::CreateDir { path: path("/functions/hid.usb0") });
    v.push(write("/functions/hid.usb0/protocol", b"0"));
    v.push(write("/functions/hid.usb0/subclass", b"0"));
    v.push(write("/functions/hid.usb0/report_length", b"7"));
    v.push(write("/functions/hid.usb0/report_desc", &report_descriptor()));
    v.push(Action::CreateDir { path: path("/configs/c.1") });
    v.push(write("/configs/c.1/MaxPower", b"500"));
    v.push(Action::Symlink {
        target: path("/functions/hid.usb0"),
        link: path("/configs/c.1/hid.usb0"),
    });
    v.push(write("/UDC", udc.as_bytes()));
    v.push(Action::Finished { verdict: Ok(()) });
    v
}

#[test]
fn new_gadget_has_done_nothing() {
    let gadget = UsbGadget::new("fe800000.usb");
    assert_eq!(gadget.phase(), Phase::Uninitialized);
    assert!(gadget.is_idle());
    assert!(!gadget.is_active());
    assert_eq!(gadget.gadget_path().as_str(), ROOT);
    assert_eq!(gadget.udc().as_str(), "fe800000.usb");
}

#[test]
fn loading_asks_for_both_modules_in_order() {
    let mut gadget = UsbGadget::new("udc0");
    let mut tree = Tree::new();
    let first = gadget.load_kernel_modules();
    assert_eq!(first, Action::LoadModule { name: String::from("libcomposite") });
    assert!(!gadget.is_idle());
    assert_eq!(drive(&mut gadget, &mut tree, first), Ok(()));
    assert_eq!(tree.modules, vec![String::from("libcomposite"), String::from("usb_f_hid")]);
    assert_eq!(gadget.phase(), Phase::PrerequisitesLoaded);
    assert!(gadget.is_idle());
    let again = gadget.load_kernel_modules();
    assert_eq!(drive(&mut gadget, &mut tree, again), Ok(()));
    assert_eq!(gadget.phase(), Phase::PrerequisitesLoaded);
}

#[test]
fn module_that_cannot_be_loaded_ends_the_request() {
    for (name, before) in [("libcomposite", 0usize), ("usb_f_hid", 1usize)] {
        let mut gadget = UsbGadget::new("udc0");
        let mut tree = Tree::new();
        tree.broken = Some(String::from(name));
        let first = gadget.load_kernel_modules();
        let verdict = drive(&mut gadget, &mut tree, first);
        assert_eq!(verdict, Err(GadgetError::ModuleLoadFailure(String::from(name))));
        assert_eq!(tree.modules.len(), before);
        assert_eq!(gadget.phase(), Phase::Uninitialized);
        assert!(gadget.is_idle());
        assert!(tree.mutations().is_empty());
    }
}

#[test]
fn provisioning_writes_the_tree_in_order() {
    let (mut gadget, mut tree) = loaded("fe800000.usb");
    let first = gadget.setup_configfs();
    assert_eq!(drive(&mut gadget, &mut tree, first), Ok(()));
    assert_eq!(tree.log, expected_provisioning("fe800000.usb", false));
    assert_eq!(gadget.phase(), Phase::Active);
    assert!(gadget.is_active());
    assert!(gadget.is_idle());
}

#[test]
fn provisioning_leaves_the_attributes_with_their_values() {
    let (_, tree) = provisioned("fe800000.usb");
    assert_eq!(tree.file("/idVendor"), Some(b"0x057e".to_vec()));
    assert_eq!(tree.file("/idProduct"), Some(b"0x2009".to_vec()));
    assert_eq!(tree.file("/bcdDevice"), Some(b"0x0100".to_vec()));
    assert_eq!(tree.file("/bcdUSB"), Some(b"0x0200".to_vec()));
    assert_eq!(tree.file("/bDeviceClass"), Some(b"0x00".to_vec()));
    assert_eq!(tree.file("/bDeviceSubClass"), Some(b"0x00".to_vec()));
    assert_eq!(tree.file("/bDeviceProtocol"), Some(b"0x00".to_vec()));
    assert_eq!(tree.file("/bMaxPacketSize0"), Some(b"64".to_vec()));
    assert_eq!(tree.file("/strings/0x409/manufacturer"), Some(b"Nintendo".to_vec()));
    assert_eq!(tree.file("/strings/0x409/product"), Some(b"Pro Controller".to_vec()));
    assert_eq!(tree.file("/functions/hid.usb0/protocol"), Some(b"0".to_vec()));
    assert_eq!(tree.file("/functions/hid.usb0/subclass"), Some(b"0".to_vec()));
    assert_eq!(tree.file("/functions/hid.usb0/report_length"), Some(b"7".to_vec()));
    assert_eq!(tree.file("/functions/hid.usb0/report_desc"), Some(report_descriptor()));
    assert_eq!(tree.file("/configs/c.1/MaxPower"), Some(b"500".to_vec()));
    assert_eq!(tree.file("/UDC"), Some(b"fe800000.usb".to_vec()));
    assert_eq!(
        tree.nodes.get(&path("/configs/c.1/hid.usb0")),
        Some(&Node::Link(path("/functions/hid.usb0")))
    );
    assert!(tree.has_dir(ROOT));
    assert!(tree.has_dir(&path("/strings/0x409")));
    assert!(tree.has_dir(&path("/functions/hid.usb0")));
    assert!(tree.has_dir(&path("/configs/c.1")));
}

#[test]
fn provisioning_twice_leaves_one_bound_gadget() {
    let (mut gadget, mut tree) = provisioned("fe800000.usb");
    let once = tree.nodes.clone();
    tree.log.clear();
    let first = gadget.setup_configfs();
    assert_eq!(drive(&mut gadget, &mut tree, first), Ok(()));
    assert_eq!(gadget.phase(), Phase::Active);
    assert_eq!(tree.nodes, once);
    assert_eq!(tree.log, expected_provisioning("fe800000.usb", true));
    assert_eq!(tree.file("/UDC"), Some(b"fe800000.usb".to_vec()));
}

#[test]
fn provisioning_needs_the_modules() {
    let mut gadget = UsbGadget::new("udc0");
    let first = gadget.setup_configfs();
    assert_eq!(first, Action::Finished { verdict: Err(GadgetError::InvalidState) });
    assert_eq!(gadget.phase(), Phase::Uninitialized);
    assert!(gadget.is_idle());
}

#[test]
fn teardown_of_nothing_touches_nothing() {
    let mut gadget = UsbGadget::new("udc0");
    let mut tree = Tree::new();
    let before = tree.nodes.clone();
    let first = gadget.teardown();
    assert_eq!(drive(&mut gadget, &mut tree, first), Ok(()));
    assert_eq!(
        tree.log,
        vec![
            Action::Probe { path: path("/UDC") },
            Action::Probe { path: path("/configs/c.1/hid.usb0") },
            Action::Finished { verdict: Ok(()) },
        ]
    );
    assert!(tree.mutations().is_empty());
    assert_eq!(tree.nodes, before);
    assert_eq!(gadget.phase(), Phase::TornDown);
}

#[test]
fn teardown_unbinds_before_it_unlinks() {
    let (mut gadget, mut tree) = provisioned("udc0");
    tree.log.clear();
    let first = gadget.teardown();
    assert_eq!(drive(&mut gadget, &mut tree, first), Ok(()));
    assert_eq!(
        tree.log,
        vec![
            Action::Probe { path: path("/UDC") },
            write("/UDC", b""),
            Action::Probe { path: path("/configs/c.1/hid.usb0") },
            Action::Remove { path: path("/configs/c.1/hid.usb0") },
            Action::Finished { verdict: Ok(()) },
        ]
    );
    assert_eq!(tree.file("/UDC"), Some(vec![]));
    assert_eq!(tree.nodes.get(&path("/configs/c.1/hid.usb0")), None);
    assert_eq!(gadget.phase(), Phase::TornDown);
    assert!(!gadget.is_active());
}

#[test]
fn teardown_runs_once() {
    let (mut gadget, mut tree) = provisioned("udc0");
    let first = gadget.teardown();
    assert_eq!(drive(&mut gadget, &mut tree, first), Ok(()));
    let again = gadget.teardown();
    assert_eq!(again, Action::Finished { verdict: Ok(()) });
    assert_eq!(gadget.phase(), Phase::TornDown);
    assert_eq!(
        gadget.setup_configfs(),
        Action::Finished { verdict: Err(GadgetError::InvalidState) }
    );
    assert_eq!(
        gadget.load_kernel_modules(),
        Action::Finished { verdict: Err(GadgetError::InvalidState) }
    );
}

#[test]
fn teardown_goes_on_after_a_failed_unbind() {
    let (mut gadget, mut tree) = provisioned("udc0");
    tree.broken = Some(path("/UDC"));
    tree.log.clear();
    let first = gadget.teardown();
    let verdict = drive(&mut gadget, &mut tree, first);
    assert_eq!(verdict, Err(GadgetError::ConfigfsWriteFailure(path("/UDC"))));
    assert!(tree.log.contains(&Action::Remove { path: path("/configs/c.1/hid.usb0") }));
    assert_eq!(tree.nodes.get(&path("/configs/c.1/hid.usb0")), None);
    assert_eq!(gadget.phase(), Phase::TornDown);
}

#[test]
fn teardown_interrupts_a_running_request() {
    let (mut gadget, mut tree) = loaded("udc0");
    let mut action = gadget.setup_configfs();
    for _ in 0..12 {
        let outcome = tree.perform(&action);
        action = gadget.advance(outcome);
    }
    assert!(!gadget.is_idle());
    assert_eq!(gadget.begin(Plan::Provision), Action::Finished {
        verdict: Err(GadgetError::InvalidState)
    });
    assert!(!gadget.is_idle());
    let first = gadget.teardown();
    assert_eq!(first, Action::Probe { path: path("/UDC") });
    assert_eq!(drive(&mut gadget, &mut tree, first), Ok(()));
    assert_eq!(gadget.phase(), Phase::TornDown);
    assert!(gadget.is_idle());
}

#[test]
fn failure_at_any_step_is_undone_and_reported() {
    let plan = Plan::Provision.steps();
    assert_eq!(plan.len(), 23);
    for (k, step) in plan.iter().enumerate() {
        if *step == Step::Unbind || *step == Step::Unlink || *step == Step::Bind {
            continue;
        }
        let (mut gadget, mut tree) = provisioned("udc0");
        let target = gadget.path_of(*step);
        tree.broken = Some(target.clone());
        tree.log.clear();
        let first = gadget.setup_configfs();
        let verdict = drive(&mut gadget, &mut tree, first);
        assert_eq!(verdict, Err(GadgetError::ConfigfsWriteFailure(target.clone())), "step {}", k);
        assert_eq!(gadget.phase(), Phase::PrerequisitesLoaded);
        assert!(gadget.is_idle());
        assert_eq!(tree.nodes.get(&path("/configs/c.1/hid.usb0")), None);
        assert_eq!(tree.file("/UDC"), Some(vec![]));
        let n = tree.log.len();
        assert_eq!(tree.log[n - 4], Action::Probe { path: path("/UDC") });
        assert_eq!(tree.log[n - 3], write("/UDC", b""));
        assert_eq!(tree.log[n - 2], Action::Probe { path: path("/configs/c.1/hid.usb0") });
    }
}

#[test]
fn failure_of_the_binding_is_undone_and_reported() {
    let (mut gadget, mut tree) = loaded("udc0");
    tree.broken = Some(path("/UDC"));
    let first = gadget.setup_configfs();
    let verdict = drive(&mut gadget, &mut tree, first);
    assert_eq!(verdict, Err(GadgetError::ConfigfsWriteFailure(path("/UDC"))));
    assert_eq!(tree.nodes.get(&path("/configs/c.1/hid.usb0")), None);
    assert_eq!(tree.file("/UDC"), None);
    assert_eq!(gadget.phase(), Phase::PrerequisitesLoaded);
    let n = tree.log.len();
    assert_eq!(tree.log[n - 4], Action::Probe { path: path("/UDC") });
    assert_eq!(tree.log[n - 3], Action::Probe { path: path("/configs/c.1/hid.usb0") });
    assert_eq!(tree.log[n - 2], Action::Remove { path: path("/configs/c.1/hid.usb0") });
}

#[test]
fn failure_on_the_first_provisioning_leaves_nothing_bound() {
    let (mut gadget, mut tree) = loaded("udc0");
    tree.broken = Some(path("/functions/hid.usb0/report_desc"));
    let first = gadget.setup_configfs();
    let verdict = drive(&mut gadget, &mut tree, first);
    assert_eq!(
        verdict,
        Err(GadgetError::ConfigfsWriteFailure(path("/functions/hid.usb0/report_desc")))
    );
    assert_eq!(tree.file("/UDC"), None);
    assert_eq!(tree.nodes.get(&path("/configs/c.1/hid.usb0")), None);
    assert_eq!(tree.nodes.get(&path("/configs/c.1")), None);
    tree.broken = None;
    let retry = gadget.setup_configfs();
    assert_eq!(drive(&mut gadget, &mut tree, retry), Ok(()));
    assert_eq!(gadget.phase(), Phase::Active);
}

#[test]
fn missing_structure_is_told_apart_from_a_failed_write() {
    let (mut gadget, mut tree) = loaded("udc0");
    tree.broken = Some(path("/idProduct"));
    tree.broken_kind = Outcome::Missing;
    let first = gadget.setup_configfs();
    let verdict = drive(&mut gadget, &mut tree, first);
    assert_eq!(verdict, Err(GadgetError::ConfigfsStructureMissing(path("/idProduct"))));
    assert_eq!(gadget.phase(), Phase::PrerequisitesLoaded);
}

#[test]
fn path_that_vanished_counts_as_undone() {
    let (mut gadget, _) = provisioned("udc0");
    let a1 = gadget.teardown();
    assert_eq!(a1, Action::Probe { path: path("/UDC") });
    let a2 = gadget.advance(Outcome::Done);
    assert_eq!(a2, write("/UDC", b""));
    let a3 = gadget.advance(Outcome::Missing);
    assert_eq!(a3, Action::Probe { path: path("/configs/c.1/hid.usb0") });
    let a4 = gadget.advance(Outcome::Done);
    assert_eq!(a4, Action::Remove { path: path("/configs/c.1/hid.usb0") });
    let a5 = gadget.advance(Outcome::Missing);
    assert_eq!(a5, Action::Finished { verdict: Ok(()) });
    assert_eq!(gadget.phase(), Phase::TornDown);
}

#[test]
fn probe_that_fails_counts_as_absent() {
    let mut gadget = UsbGadget::new("udc0");
    let a1 = gadget.teardown();
    assert_eq!(a1, Action::Probe { path: path("/UDC") });
    let a2 = gadget.advance(Outcome::Failed);
    assert_eq!(a2, Action::Probe { path: path("/configs/c.1/hid.usb0") });
    let a3 = gadget.advance(Outcome::Failed);
    assert_eq!(a3, Action::Finished { verdict: Ok(()) });
}

#[test]
fn unbind_then_bind_to_another_controller() {
    let (mut gadget, mut tree) = provisioned("first.usb");
    let built = tree.nodes.clone();
    tree.log.clear();
    let first = gadget.disable_gadget();
    assert_eq!(drive(&mut gadget, &mut tree, first), Ok(()));
    assert_eq!(gadget.phase(), Phase::Provisioned);
    assert!(!gadget.is_active());
    assert_eq!(tree.file("/UDC"), Some(vec![]));
    let first = gadget.enable_gadget("second.usb");
    assert_eq!(first, write("/UDC", b"second.usb"));
    assert_eq!(drive(&mut gadget, &mut tree, first), Ok(()));
    assert_eq!(gadget.phase(), Phase::Active);
    assert_eq!(gadget.udc().as_str(), "second.usb");
    assert_eq!(tree.file("/UDC"), Some(b"second.usb".to_vec()));
    assert_eq!(
        tree.log,
        vec![
            Action::Probe { path: path("/UDC") },
            write("/UDC", b""),
            Action::Finished { verdict: Ok(()) },
            write("/UDC", b"second.usb"),
            Action::Finished { verdict: Ok(()) },
        ]
    );
    let mut rest = tree.nodes.clone();
    let mut was = built;
    rest.remove(&path("/UDC"));
    was.remove(&path("/UDC"));
    assert_eq!(rest, was);
}

#[test]
fn binding_needs_a_provisioned_gadget() {
    let (mut gadget, mut tree) = provisioned("first.usb");
    assert_eq!(
        gadget.enable_gadget("second.usb"),
        Action::Finished { verdict: Err(GadgetError::InvalidState) }
    );
    assert_eq!(gadget.udc().as_str(), "first.usb");
    assert_eq!(gadget.phase(), Phase::Active);
    let first = gadget.disable_gadget();
    assert_eq!(drive(&mut gadget, &mut tree, first), Ok(()));
    assert_eq!(gadget.phase(), Phase::Provisioned);
    let (mut fresh, _) = loaded("udc0");
    assert_eq!(
        fresh.enable_gadget("x"),
        Action::Finished { verdict: Err(GadgetError::InvalidState) }
    );
    assert_eq!(fresh.udc().as_str(), "udc0");
}

#[test]
fn unbinding_with_nothing_provisioned_succeeds_and_writes_nothing() {
    let mut gadget = UsbGadget::new("udc0");
    let mut tree = Tree::new();
    let before = tree.nodes.clone();
    let first = gadget.disable_gadget();
    assert_eq!(first, Action::Probe { path: path("/UDC") });
    assert_eq!(drive(&mut gadget, &mut tree, first), Ok(()));
    assert_eq!(
        tree.log,
        vec![Action::Probe { path: path("/UDC") }, Action::Finished { verdict: Ok(()) }]
    );
    assert!(tree.mutations().is_empty());
    assert_eq!(tree.nodes, before);
    assert_eq!(gadget.phase(), Phase::Uninitialized);
    assert!(gadget.is_idle());

    let (mut gadget, mut tree) = loaded("udc0");
    let first = gadget.disable_gadget();
    assert_eq!(drive(&mut gadget, &mut tree, first), Ok(()));
    assert!(tree.mutations().is_empty());
    assert_eq!(gadget.phase(), Phase::PrerequisitesLoaded);
}

#[test]
fn unbinding_is_taken_up_in_every_phase() {
    let (mut gadget, mut tree) = provisioned("udc0");
    let first = gadget.disable_gadget();
    assert_eq!(drive(&mut gadget, &mut tree, first), Ok(()));
    assert_eq!(gadget.phase(), Phase::Provisioned);
    tree.log.clear();
    let again = gadget.disable_gadget();
    assert_eq!(drive(&mut gadget, &mut tree, again), Ok(()));
    assert_eq!(
        tree.log,
        vec![
            Action::Probe { path: path("/UDC") },
            write("/UDC", b""),
            Action::Finished { verdict: Ok(()) },
        ]
    );
    assert_eq!(gadget.phase(), Phase::Provisioned);
    let first = gadget.teardown();
    assert_eq!(drive(&mut gadget, &mut tree, first), Ok(()));
    let after = gadget.disable_gadget();
    assert_eq!(drive(&mut gadget, &mut tree, after), Ok(()));
    assert_eq!(gadget.phase(), Phase::TornDown);
}

#[test]
fn unbinding_waits_for_a_running_request() {
    let (mut gadget, _) = loaded("udc0");
    let first = gadget.setup_configfs();
    assert_eq!(first, Action::Probe { path: path("/UDC") });
    assert_eq!(
        gadget.disable_gadget(),
        Action::Finished { verdict: Err(GadgetError::InvalidState) }
    );
    assert!(!gadget.is_idle());
}

#[test]
fn failed_unbind_of_an_unloaded_gadget_keeps_its_phase() {
    let mut gadget = UsbGadget::new("udc0");
    assert_eq!(gadget.disable_gadget(), Action::Probe { path: path("/UDC") });
    assert_eq!(gadget.advance(Outcome::Done), write("/UDC", b""));
    assert_eq!(gadget.advance(Outcome::Failed), Action::Probe { path: path("/UDC") });
    assert_eq!(
        gadget.advance(Outcome::Missing),
        Action::Probe { path: path("/configs/c.1/hid.usb0") }
    );
    assert_eq!(
        gadget.advance(Outcome::Missing),
        Action::Finished { verdict: Err(GadgetError::ConfigfsWriteFailure(path("/UDC"))) }
    );
    assert_eq!(gadget.phase(), Phase::Uninitialized);
}

#[test]
fn outcome_without_a_request_is_refused() {
    let mut gadget = UsbGadget::new("udc0");
    for outcome in [Outcome::Done, Outcome::Missing, Outcome::Failed] {
        assert_eq!(
            gadget.advance(outcome),
            Action::Finished { verdict: Err(GadgetError::InvalidState) }
        );
        assert_eq!(gadget.phase(), Phase::Uninitialized);
        assert!(gadget.is_idle());
    }
}

#[test]
fn steps_know_their_kind_and_path() {
    let gadget = UsbGadget::new("udc0");
    assert_eq!(Step::LoadComposite.kind(), StepKind::Module);
    assert_eq!(Step::GadgetDir.kind(), StepKind::MakeDir);
    assert_eq!(Step::IdVendor.kind(), StepKind::WriteFile);
    assert_eq!(Step::Unlink.kind(), StepKind::RemoveFile);
    assert_eq!(Step::LinkFunction.kind(), StepKind::MakeLink);
    assert!(Step::Unbind.guarded());
    assert!(Step::Unlink.guarded());
    assert!(!Step::Bind.guarded());
    assert_eq!(gadget.path_of(Step::LoadHid), "usb_f_hid");
    assert_eq!(gadget.path_of(Step::GadgetDir), ROOT);
    assert_eq!(gadget.path_of(Step::Bind), path("/UDC"));
    assert_eq!(gadget.path_of(Step::Unbind), path("/UDC"));
    assert_eq!(gadget.path_of(Step::Unlink), gadget.path_of(Step::LinkFunction));
    assert_eq!(gadget.data_of(Step::Unbind), Vec::<u8>::new());
    assert_eq!(gadget.data_of(Step::Bind), b"udc0".to_vec());
    assert_eq!(gadget.data_of(Step::IdVendor), b"0x057e".to_vec());
    assert_eq!(
        gadget.operation_of(Step::LinkFunction),
        Action::Symlink {
            target: path("/functions/hid.usb0"),
            link: path("/configs/c.1/hid.usb0"),
        }
    );
    assert_eq!(Plan::Cleanup.steps(), vec![Step::Unbind, Step::Unlink]);
    assert_eq!(Plan::Load.steps(), vec![Step::LoadComposite, Step::LoadHid]);
    assert_eq!(Plan::Bind.steps(), vec![Step::Bind]);
    assert_eq!(Plan::Unbind.steps(), vec![Step::Unbind]);
    assert!(Plan::Cleanup.lenient());
    assert!(!Plan::Provision.lenient());
    assert_eq!(gadget.goal_of(Plan::Provision), Phase::Active);
    assert_eq!(gadget.goal_of(Plan::Bind), Phase::Active);
    assert_eq!(gadget.goal_of(Plan::Unbind), Phase::Uninitialized);
    assert_eq!(gadget.goal_of(Plan::Load), Phase::PrerequisitesLoaded);
    assert_eq!(gadget.goal_of(Plan::Cleanup), Phase::TornDown);
    assert_eq!(gadget.fallback_phase(), Phase::Uninitialized);
    let (active, _) = provisioned("udc0");
    assert_eq!(active.goal_of(Plan::Unbind), Phase::Provisioned);
    assert_eq!(active.fallback_phase(), Phase::PrerequisitesLoaded);
}

#[test]
fn errors_describe_themselves() {
    assert_eq!(
        GadgetError::ConfigfsWriteFailure(path("/UDC")).message(),
        format!("configfs operation failed at {}/UDC", ROOT)
    );
    assert_eq!(
        GadgetError::ConfigfsStructureMissing(path("/idVendor")).message(),
        format!("configfs structure missing at {}/idVendor", ROOT)
    );
    assert_eq!(
        GadgetError::ModuleLoadFailure(String::from("usb_f_hid")).message(),
        "failed to insert kernel module usb_f_hid"
    );
    assert_eq!(GadgetError::EndpointTimeout.message(), "endpoint transfer timed out");
    assert_eq!(GadgetError::EndpointIoFailure.message(), "endpoint transfer failed");
    assert_eq!(GadgetError::InvalidState.message(), "operation not allowed in this state");
    assert!(GadgetError::EndpointTimeout.is_recoverable());
    assert!(!GadgetError::EndpointIoFailure.is_recoverable());
    assert!(!GadgetError::InvalidState.is_recoverable());
    assert!(!GadgetError::ConfigfsWriteFailure(String::new()).is_recoverable());
    let e = GadgetError::ModuleLoadFailure(String::from("m"));
    assert_eq!(e.duplicate(), e);
}
