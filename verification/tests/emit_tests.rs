use n2k_codegen::driver::{check_registry_wf, n2k_codegen};
use n2k_codegen::emit::{emit_message, emit_mod_line, emit_use_line};
use n2k_codegen::resolve::CodegenError;
use n2k_codegen::schema::{Field, Fields, PGNInfo, PGNS, PGNsFile};

fn field(order: &str, id: &str, name: &str, bits: &str, n2k_type: &str, resolution: &str) -> Field {
    Field {
        order: order.to_string(),
        id: id.to_string(),
        name: name.to_string(),
        bit_length: bits.to_string(),
        bit_offset: String::new(),
        n2k_type: n2k_type.to_string(),
        resolution: resolution.to_string(),
    }
}

fn message(pgn: &str, id: &str, length: &str, fields: Vec<Field>) -> PGNInfo {
    PGNInfo {
        pgn: pgn.to_string(),
        id: id.to_string(),
        length: length.to_string(),
        fields: Fields { fields },
    }
}

fn registry(messages: Vec<PGNInfo>) -> PGNsFile {
    PGNsFile {
        comment: "test registry".to_string(),
        creator_code: "test".to_string(),
        license: "none".to_string(),
        pgns: PGNS { pgn_infos: messages },
    }
}

#[test]
fn reserved_field_is_omitted_but_its_width_is_noted() {
    let m = message(
        "60928",
        "IsoAddressClaim",
        "8",
        vec![
            field("1", "uniqueNumber", "Unique Number", "8", "", ""),
            field("2", "Reserved", "Reserved bits", "4", "", ""),
        ],
    );
    let text = emit_message(&m).unwrap();
    assert!(!text.contains("pub reserved"));
    assert!(text.contains("\t// reserved field, length = 4 bits\n"));
    assert!(text.contains("\t\t// not decoding reserved field with 4 bits\n"));
    assert!(!text.contains("\t\t\treserved,\n"));
    assert!(text.contains("\tpub unique_number: u8,\n"));
}

#[test]
fn message_file_text_is_emitted_exactly() {
    let m = message(
        "60928",
        "IsoAddressClaim",
        "25",
        vec![
            field("1", "uniqueNumber", "Unique Number", "8", "", ""),
            field("2", "manufacturerCode", "Manufacturer Code", "16", "", ""),
            field("3", "deviceInstance", "Device Instance", "1", "", ""),
        ],
    );
    let text = emit_message(&m).unwrap();
    let expected = "use ::generated::enums::*;\nuse ::types::*;\npub struct IsoAddressClaim {\n\
        \tpub unique_number: u8,\n\
        \tpub manufacturer_code: u16,\n\
        \tpub device_instance: bool,\n\
        }\n\
        impl IsoAddressClaim {\n\
        \tpub fn decode(/* placeholder */) -> IsoAddressClaim {\n\
        \t\tlet unique_number = u8::default(); // placeholder\n\
        \t\tlet manufacturer_code = u16::default(); // placeholder\n\
        \t\tlet device_instance = bool::default(); // placeholder\n\
        \t\tIsoAddressClaim {\n\
        \t\t\tunique_number,\n\
        \t\t\tmanufacturer_code,\n\
        \t\t\tdevice_instance,\n\
        \t\t}\n\
        \t}\n\
        \tpub fn encode(&self) -> Vec<u8> {\n\
        \t\tpanic!(\"placeholder\");\n\
        \t}\n\
        }\n";
    assert_eq!(text, expected);
}

#[test]
fn registration_lines_use_the_derived_names() {
    let m = message("60928", "IsoAddressClaim", "8", vec![]);
    assert_eq!(emit_mod_line(&m), "pub mod iso_address_claim;\n");
    assert_eq!(
        emit_use_line(&m),
        "pub use generated::structs::iso_address_claim::IsoAddressClaim;\n"
    );
}

#[test]
fn two_message_generation_end_to_end() {
    let file = registry(vec![
        message(
            "60928",
            "IsoAddressClaim",
            "25",
            vec![
                field("1", "uniqueNumber", "Unique Number", "8", "", ""),
                field("2", "manufacturerCode", "Manufacturer Code", "16", "", ""),
                field("3", "deviceInstance", "Device Instance", "1", "", ""),
            ],
        ),
        message(
            "126992",
            "SystemTime",
            "64",
            vec![field("1", "date", "Date", "16", "Date", "")],
        ),
        message(
            "59904",
            "IsoRequest",
            "24",
            vec![field("1", "manufacturerCode", "Manufacturer Code", "16", "Manufacturer code", "")],
        ),
    ]);
    assert!(check_registry_wf(&file));
    let out = n2k_codegen(&file).unwrap();

    // only the allow-listed messages, in document order
    assert_eq!(out.messages.len(), 2);
    assert_eq!(out.messages[0].module_name, "iso_address_claim");
    assert_eq!(out.messages[1].module_name, "iso_request");

    assert_eq!(
        out.lib_text,
        "mod generated;\nmod types;\n\
         pub use generated::structs::iso_address_claim::IsoAddressClaim;\n\
         pub use generated::structs::iso_request::IsoRequest;\n"
    );
    assert_eq!(
        out.structs_mod_text,
        "pub mod iso_address_claim;\npub mod iso_request;\n"
    );

    // message A: the three fields in declared order per the integer width table
    let a = &out.messages[0].contents;
    assert!(a.contains("pub struct IsoAddressClaim {"));
    let pu = a.find("pub unique_number: u8,").unwrap();
    let pm = a.find("pub manufacturer_code: u16,").unwrap();
    let pd = a.find("pub device_instance: bool,").unwrap();
    assert!(pu < pm && pm < pd);

    // decode stub references exactly the non-reserved names in order
    let du = a.find("\t\t\tunique_number,\n").unwrap();
    let dm = a.find("\t\t\tmanufacturer_code,\n").unwrap();
    let dd = a.find("\t\t\tdevice_instance,\n").unwrap();
    assert!(du < dm && dm < dd);

    // message B: one 16-bit manufacturer-code field
    let b = &out.messages[1].contents;
    assert!(b.contains("pub struct IsoRequest {"));
    assert!(b.contains("\tpub manufacturer_code: u16,\n"));

    // encode stubs are unconditionally unimplemented placeholders
    assert!(a.contains("\tpub fn encode(&self) -> Vec<u8> {\n\t\tpanic!(\"placeholder\");\n\t}\n"));
    assert!(b.contains("\tpub fn encode(&self) -> Vec<u8> {\n\t\tpanic!(\"placeholder\");\n\t}\n"));
}

#[test]
fn unsupported_scaling_aborts_the_whole_run_with_no_output() {
    let file = registry(vec![
        message(
            "60928",
            "IsoAddressClaim",
            "8",
            vec![field("1", "uniqueNumber", "Unique Number", "8", "", "")],
        ),
        message(
            "59904",
            "IsoRequest",
            "16",
            vec![field("1", "scaled", "Scaled", "16", "Integer", "0.1")],
        ),
    ]);
    assert!(check_registry_wf(&file));
    let r = n2k_codegen(&file);
    match r {
        Ok(_) => panic!("a non-unit integer resolution must abort the run"),
        Err(e) => assert_eq!(e, CodegenError::UnsupportedScaling),
    }
}

#[test]
fn integer_with_unit_resolution_generates() {
    let file = registry(vec![message(
        "59904",
        "IsoRequest",
        "16",
        vec![field("1", "plain", "Plain", "16", "Integer", "1.0")],
    )]);
    assert!(check_registry_wf(&file));
    let out = n2k_codegen(&file).unwrap();
    assert!(out.messages[0].contents.contains("\tpub plain: u16,\n"));
}

#[test]
fn messages_outside_the_allow_list_need_not_be_well_formed() {
    let file = registry(vec![message(
        "126992",
        "SystemTime",
        "64",
        vec![field("1", "date", "Date", "not a number", "Date", "")],
    )]);
    // the malformed message is not selected, so the registry still checks out
    assert!(check_registry_wf(&file));
    let out = n2k_codegen(&file).unwrap();
    assert_eq!(out.messages.len(), 0);
    assert_eq!(out.lib_text, "mod generated;\nmod types;\n");
    assert_eq!(out.structs_mod_text, "");
}

#[test]
fn unknown_tag_is_surfaced_in_the_emitted_member() {
    let file = registry(vec![message(
        "59904",
        "IsoRequest",
        "16",
        vec![field("1", "odd", "Odd", "16", "Flux density", "")],
    )]);
    assert!(check_registry_wf(&file));
    let out = n2k_codegen(&file).unwrap();
    assert!(out.messages[0].contents.contains("\tpub odd: UNKNOWN,\n"));
}

#[test]
fn a_selected_message_with_a_malformed_bit_length_fails_the_check() {
    let file = registry(vec![message(
        "60928",
        "IsoAddressClaim",
        "8",
        vec![field("1", "uniqueNumber", "Unique Number", "eight", "", "")],
    )]);
    assert!(!check_registry_wf(&file));
}

#[test]
fn a_selected_message_with_an_empty_identifier_fails_the_check() {
    let file = registry(vec![message("59904", "", "8", vec![])]);
    assert!(!check_registry_wf(&file));
}
