use compository_publish::publisher::{
    Call, FileStep, InstanceParams, Procedure, PublishError, Publisher, Reply, Stage,
};
use compository_publish::types::{DnaTemplate, Timestamp, ZomeToPublish, ZomeWithCode};

const MIB: usize = 1024 * 1024;

fn unit(name: &str, artifact: usize, bundle: Option<usize>) -> ZomeWithCode {
    ZomeWithCode {
        name: name.to_string(),
        components_bundle: bundle.map(|n| vec![7u8; n]),
        wasm_code: (0..artifact).map(|i| (i % 253) as u8).collect(),
        wasm_hash: vec![1, 2, 3],
        entry_defs: vec!["post".to_string(), "comment".to_string()],
        required_properties: vec!["progenitor".to_string()],
        required_membrane_proof: true,
    }
}

fn instance() -> InstanceParams {
    InstanceParams {
        instantiated_dna_hash: "uhC0kPPP".to_string(),
        uuid: "00000000-0000-0000-0000-000000000001".to_string(),
        properties: vec![0x80],
    }
}

const NOW: Timestamp = Timestamp { secs: 1_600_000_000, nanos: 5 };

#[derive(Default)]
struct Log {
    chunks: Vec<Vec<u8>>,
    files: Vec<(String, String, usize, Vec<String>)>,
    zomes: Vec<ZomeToPublish>,
    templates: Vec<DnaTemplate>,
    instances: Vec<(String, String, String, Vec<u8>)>,
}

/// Drives a run against a registry that hands out numbered hashes; `fail`
/// picks the call that is refused.
fn drive(p: &mut Publisher, fail: impl Fn(&Call) -> Option<Reply>) -> Log {
    let mut log = Log::default();
    let mut n = 0;
    loop {
        let call = p.next_call(NOW);
        if let Some(reply) = fail(&call) {
            p.record_reply(reply);
            continue;
        }
        n += 1;
        let reply = match &call {
            Call::StoreChunk(b) => {
                log.chunks.push(b.clone());
                Reply::Hash(format!("chunk{}", n))
            }
            Call::CreateFile(m) => {
                assert_eq!(m.last_modified, NOW);
                log.files.push((m.name.clone(), m.file_type.clone(), m.size, m.chunks_hashes.clone()));
                Reply::Hash(format!("file{}", n))
            }
            Call::PublishZome(z) => {
                log.zomes.push(z.clone());
                Reply::Hash(format!("hash{}", z.name))
            }
            Call::PublishTemplate(t) => {
                log.templates.push(t.clone());
                Reply::Hash("template".to_string())
            }
            Call::PublishInstance(i) => {
                log.instances.push((
                    i.dna_template_hash.clone(),
                    i.instantiated_dna_hash.clone(),
                    i.uuid.clone(),
                    i.properties.clone(),
                ));
                Reply::Payload
            }
            Call::Finished | Call::Stopped => return log,
        };
        p.record_reply(reply);
    }
}

#[test]
fn empty_package_is_refused() {
    assert!(matches!(
        Publisher::new("P".to_string(), vec![], instance()),
        Err(PublishError::EmptyPackage)
    ));
}

#[test]
fn two_unit_package_publishes_in_order() {
    let units = vec![unit("A", 25 * MIB, None), unit("B", 5 * 1024, Some(300))];
    let mut p = Publisher::new("P".to_string(), units, instance()).unwrap();
    let log = drive(&mut p, |_| None);

    let sizes: Vec<usize> = log.chunks.iter().map(|c| c.len()).collect();
    assert_eq!(sizes, vec![10 * MIB, 10 * MIB, 5 * MIB, 5 * 1024, 300]);

    assert_eq!(log.files.len(), 3);
    assert_eq!(
        log.files[0],
        ("artifact".to_string(), "wasm".to_string(), 25 * MIB,
         vec!["chunk1".to_string(), "chunk2".to_string(), "chunk3".to_string()])
    );
    assert_eq!(log.files[1], ("artifact".to_string(), "wasm".to_string(), 5 * 1024, vec!["chunk6".to_string()]));
    assert_eq!(log.files[2], ("bundle".to_string(), "js".to_string(), 300, vec!["chunk8".to_string()]));

    assert_eq!(log.zomes.len(), 2);
    assert_eq!(log.zomes[0].name, "A");
    assert_eq!(log.zomes[0].wasm_file, "file4");
    assert_eq!(log.zomes[0].components_bundle_file, None);
    assert_eq!(log.zomes[1].name, "B");
    assert_eq!(log.zomes[1].wasm_file, "file7");
    assert_eq!(log.zomes[1].components_bundle_file, Some("file9".to_string()));
    assert_eq!(log.zomes[1].entry_defs, vec!["post".to_string(), "comment".to_string()]);
    assert_eq!(log.zomes[1].required_properties, vec!["progenitor".to_string()]);
    assert_eq!(log.zomes[1].wasm_hash, vec![1, 2, 3]);
    assert!(log.zomes[1].required_membrane_proof);

    assert_eq!(log.templates.len(), 1);
    assert_eq!(log.templates[0].name, "P");
    let refs: Vec<(String, String)> = log.templates[0]
        .zome_defs
        .iter()
        .map(|r| (r.name.clone(), r.zome_def_hash.clone()))
        .collect();
    assert_eq!(refs, vec![("A".to_string(), "hashA".to_string()), ("B".to_string(), "hashB".to_string())]);

    assert_eq!(
        log.instances,
        vec![("template".to_string(), "uhC0kPPP".to_string(),
              "00000000-0000-0000-0000-000000000001".to_string(), vec![0x80])]
    );
    assert!(matches!(p.stage, Stage::Done));
    assert!(matches!(p.next_call(NOW), Call::Finished));
}

#[test]
fn refused_unit_publish_stops_before_template() {
    let units = vec![unit("A", 10, None), unit("B", 10, Some(4))];
    let mut p = Publisher::new("P".to_string(), units, instance()).unwrap();
    let log = drive(&mut p, |c| match c {
        Call::PublishZome(z) if z.name == "B" => Some(Reply::Remote("invalid zome".to_string())),
        _ => None,
    });
    assert_eq!(log.zomes.len(), 1);
    assert!(log.templates.is_empty());
    assert!(log.instances.is_empty());
    match &p.stage {
        Stage::Failed(e) => assert_eq!(
            e,
            &PublishError::Remote {
                procedure: Procedure::PublishZome,
                unit: Some(1),
                message: "invalid zome".to_string()
            }
        ),
        _ => panic!("the run should have failed"),
    }
    assert_eq!(p.units[1].name, "B");
    assert!(matches!(p.next_call(NOW), Call::Stopped));
}

#[test]
fn refused_template_stops_before_instance() {
    let mut p = Publisher::new("P".to_string(), vec![unit("A", 3, None)], instance()).unwrap();
    let log = drive(&mut p, |c| match c {
        Call::PublishTemplate(_) => Some(Reply::Transport("closed".to_string())),
        _ => None,
    });
    assert_eq!(log.zomes.len(), 1);
    assert!(log.instances.is_empty());
    assert!(matches!(&p.stage, Stage::Failed(PublishError::Connection(m)) if m == "closed"));
}

#[test]
fn failed_chunk_aborts_file() {
    let mut p = Publisher::new("P".to_string(), vec![unit("A", 3, None)], instance()).unwrap();
    assert_eq!(p.current_procedure(), Procedure::StoreChunk);
    p.record_reply(Reply::Unexpected);
    assert!(matches!(
        &p.stage,
        Stage::Failed(PublishError::ProtocolMismatch { procedure: Procedure::StoreChunk, unit: Some(0) })
    ));
    assert!(matches!(p.next_call(NOW), Call::Stopped));
}

#[test]
fn payload_where_hash_expected_is_mismatch() {
    let mut p = Publisher::new("P".to_string(), vec![unit("A", 3, None)], instance()).unwrap();
    p.record_reply(Reply::Hash("c".to_string()));
    assert_eq!(p.current_procedure(), Procedure::CreateFileMetadata);
    p.record_reply(Reply::Payload);
    assert!(matches!(
        &p.stage,
        Stage::Failed(PublishError::ProtocolMismatch { procedure: Procedure::CreateFileMetadata, unit: Some(0) })
    ));
}

#[test]
fn empty_artifact_gives_file_without_chunks() {
    let mut p = Publisher::new("P".to_string(), vec![unit("A", 0, None)], instance()).unwrap();
    match p.next_call(NOW) {
        Call::CreateFile(m) => {
            assert_eq!(m.size, 0);
            assert!(m.chunks_hashes.is_empty());
        }
        _ => panic!("an empty file has no chunk to store"),
    }
    p.record_reply(Reply::Hash("f".to_string()));
    assert_eq!(p.file, FileStep::Record);
    assert_eq!(p.wasm_file, "f");
}

#[test]
fn chunk_hashes_follow_chunk_order() {
    let mut p = Publisher::new("P".to_string(), vec![unit("A", 2 * MIB * 10 + 1, None)], instance()).unwrap();
    for h in ["x", "y", "z"] {
        assert!(matches!(p.next_call(NOW), Call::StoreChunk(_)));
        p.record_reply(Reply::Hash(h.to_string()));
    }
    match p.next_call(NOW) {
        Call::CreateFile(m) => {
            assert_eq!(m.chunks_hashes, vec!["x".to_string(), "y".to_string(), "z".to_string()]);
            assert_eq!(m.size, 20 * MIB + 1);
        }
        _ => panic!("every chunk is stored"),
    }
}

#[test]
fn file_of_exactly_one_chunk_records_its_size() {
    let mut p = Publisher::new("P".to_string(), vec![unit("A", 10 * MIB, None)], instance()).unwrap();
    match p.next_call(NOW) {
        Call::StoreChunk(b) => assert_eq!(b.len(), 10 * MIB),
        _ => panic!("the chunk is stored first"),
    }
    p.record_reply(Reply::Hash("only".to_string()));
    match p.next_call(NOW) {
        Call::CreateFile(m) => {
            assert_eq!(m.size, 10 * MIB);
            assert_eq!(m.chunks_hashes, vec!["only".to_string()]);
        }
        _ => panic!("one chunk makes the whole file"),
    }
}
