use hardware_keys::protocol::{Call, Machine, Progress, Reply};
use hardware_keys::windows_tpm::{
    delete_key, generate_key, list_keys, sign_hash, DuplicateLabelPolicy,
};
use hardware_keys::{Error, GeneratedKey};

/// A system that keeps keys by name. Each key has a blob of its own.
struct System {
    names: Vec<String>,
    handles: Vec<String>,
    blobs: Vec<(String, u8)>,
    unreadable: Vec<String>,
}

impl System {
    fn new(names: &[&str]) -> System {
        System {
            names: names.iter().map(|name| name.to_string()).collect(),
            handles: Vec::new(),
            blobs: Vec::new(),
            unreadable: Vec::new(),
        }
    }

    fn open(&mut self, name: &str) -> Reply {
        self.handles.push(name.to_string());
        Reply::Handle { handle: self.handles.len() }
    }

    fn blob(&mut self, name: &str) -> u8 {
        match self.blobs.iter().find(|(known, _)| known == name) {
            Some((_, byte)) => *byte,
            None => {
                let byte = self.blobs.len() as u8 + 1;
                self.blobs.push((name.to_string(), byte));
                byte
            }
        }
    }

    fn answer(&mut self, call: Call) -> Reply {
        match call {
            Call::OpenProvider { .. } => self.open(""),
            Call::OpenKey { name, .. } => {
                if self.names.contains(&name) && !self.unreadable.contains(&name) {
                    self.open(&name)
                } else {
                    Reply::Failed { message: "no such key".to_string() }
                }
            }
            Call::CreateKey { name, .. } => self.open(&name),
            Call::FinalizeKey { key } => {
                let name = self.handles[key - 1].clone();
                self.names.push(name);
                Reply::Success
            }
            Call::DeleteKey { key } => {
                let name = self.handles[key - 1].clone();
                self.names.retain(|known| *known != name);
                Reply::Success
            }
            Call::ExportSize { .. } | Call::SignSize { .. } => Reply::Size { size: 10 },
            Call::Export { key, .. } => {
                let name = self.handles[key - 1].clone();
                let byte = self.blob(&name);
                Reply::Data { bytes: vec![0, 0, 0, 0, 1, 0, 0, 0, byte, byte], written: 10 }
            }
            Call::Sign { hash, .. } => {
                let written = hash.len() as u32;
                Reply::Data { bytes: hash, written }
            }
            Call::EnumKeys { cursor, .. } => {
                if cursor < self.names.len() {
                    Reply::Named {
                        cursor: cursor + 1,
                        address: 1,
                        name: Some(self.names[cursor].clone()),
                    }
                } else {
                    Reply::Ended { cursor }
                }
            }
            Call::CheckHello | Call::RequestConsent { .. } => {
                panic!("plain keys do not ask Windows Hello")
            }
        }
    }

    fn run<M: Machine>(&mut self, start: Progress<M, M::Output>) -> Result<M::Output, Error> {
        let mut progress = start;
        loop {
            match progress {
                Progress::Pending { call, machine, .. } => {
                    let reply = self.answer(call);
                    assert!(machine.accepts(&reply));
                    progress = machine.step(reply);
                }
                Progress::Done { output, .. } => return Ok(output),
                Progress::Failed { error, .. } => return Err(error),
            }
        }
    }

    fn generate(&mut self, label: &str, policy: DuplicateLabelPolicy) -> GeneratedKey {
        match self.run(generate_key(label, "ES256", false, policy)) {
            Ok(key) => key,
            Err(_) => panic!("generation succeeds"),
        }
    }
}

#[test]
fn generated_key_is_listed_as_it_was_yielded() {
    let mut system = System::new(&["other", "hwkey-broken", "hwkey-b"]);
    system.unreadable.push("hwkey-broken".to_string());
    let key = system.generate("a", DuplicateLabelPolicy::Error);
    let keys = system.run(list_keys()).unwrap();
    assert_eq!(keys.len(), 2);
    assert_eq!(keys[0].key_id, "hwkey-b");
    assert_eq!(keys[1], key);
}

#[test]
fn deletion_undoes_generation() {
    let mut system = System::new(&["hwkey-b", "other"]);
    let key = system.generate("a", DuplicateLabelPolicy::Error);
    assert_eq!(system.names, ["hwkey-b", "other", "hwkey-a"]);
    assert_eq!(system.run(delete_key(&key.key_id)), Ok(()));
    assert_eq!(system.names, ["hwkey-b", "other"]);
    assert_eq!(
        system.run(delete_key(&key.key_id)),
        Err(Error::Reason { reason: "Key not found for key_id: 'hwkey-a'".to_string() })
    );
}

#[test]
fn generation_keeps_one_key_for_each_name() {
    let mut system = System::new(&[]);
    let first = system.generate("a", DuplicateLabelPolicy::Error);
    let again = system.generate("a", DuplicateLabelPolicy::Error);
    assert_eq!(first, again);
    assert_eq!(system.names, ["hwkey-a"]);
    system.generate("a", DuplicateLabelPolicy::Replace);
    assert_eq!(system.names, ["hwkey-a"]);
}

#[test]
fn signing_and_listing_change_no_key() {
    let mut system = System::new(&["hwkey-a", "other"]);
    let result = system.run(sign_hash("hwkey-a", &[1, 2, 3])).unwrap();
    assert_eq!(result.signature, vec![1, 2, 3]);
    assert_eq!(system.run(list_keys()).unwrap().len(), 1);
    assert_eq!(system.names, ["hwkey-a", "other"]);
}
