use turbocommit::model::Model;

#[test]
fn context_sizes_are_exact() {
    assert_eq!(Model::Gpt40125Preview.context_size(), 128000);
    assert_eq!(Model::Gpt4TurboPreview.context_size(), 128000);
    assert_eq!(Model::Gpt41106Preview.context_size(), 128000);
    assert_eq!(Model::Gpt4VisionPreview.context_size(), 128000);
    assert_eq!(Model::Gpt4.context_size(), 8192);
    assert_eq!(Model::Gpt40613.context_size(), 8192);
    assert_eq!(Model::Gpt432k.context_size(), 32768);
    assert_eq!(Model::Gpt432k0613.context_size(), 32768);
    assert_eq!(Model::Gpt35Turbo.context_size(), 4096);
    assert_eq!(Model::Gpt35Turbo16k.context_size(), 16385);
    assert_eq!(Model::Gpt35Turbo0613.context_size(), 4096);
    assert_eq!(Model::Gpt35Turbo1106.context_size(), 16385);
    assert_eq!(Model::Gpt35Turbo0125.context_size(), 16385);
    assert_eq!(Model::Gpt35Turbo16k0613.context_size(), 16385);
}

#[test]
fn identifiers_round_trip() {
    for model in Model::all() {
        let name = model.to_string();
        assert_eq!(Model::from_str(name.as_str()).unwrap(), model);
    }
}

#[test]
fn known_names_parse() {
    assert_eq!(Model::from_str("gpt-4").unwrap(), Model::Gpt4);
    assert_eq!(Model::from_str("gpt-3.5-turbo").unwrap(), Model::Gpt35Turbo);
    assert_eq!(Model::from_str("gpt-4-32k-0613").unwrap(), Model::Gpt432k0613);
}

#[test]
fn unknown_name_is_a_configuration_error() {
    let err = Model::from_str("gpt-5").unwrap_err();
    assert_eq!(err, "gpt-5 is not a valid model");
    assert!(Model::from_str("").is_err());
    assert!(Model::from_str("GPT-4").is_err());
}

#[test]
fn all_lists_every_model_once() {
    let all = Model::all();
    assert_eq!(all.len(), 14);
    for (i, a) in all.iter().enumerate() {
        for (j, b) in all.iter().enumerate() {
            if i != j {
                assert!(a != b);
            }
        }
    }
}

#[test]
fn cost_is_exact_in_scaled_units() {
    // 1000 prompt and 500 completion tokens on gpt-3.5-turbo:
    // 1000 * 3.0/1000 + 500 * 4.0/1000 = 5 currency units = 50000 scaled.
    assert_eq!(Model::Gpt35Turbo.cost_scaled(1000, 500), 50000);
    // 100 prompt and 10 completion tokens on gpt-4: 1.3 units.
    assert_eq!(Model::Gpt4.cost_scaled(100, 10), 13000);
    assert_eq!(Model::Gpt432k.cost_scaled(0, 0), 0);
    // gpt-3.5-turbo-0125: 0.5 and 1.5 per thousand.
    assert_eq!(Model::Gpt35Turbo0125.cost_scaled(2000, 2000), 2000 * 5 + 2000 * 15);
}

#[test]
fn cost_never_falls_as_tokens_grow() {
    for model in Model::all() {
        let base = model.cost_scaled(100, 100);
        assert!(model.cost_scaled(101, 100) >= base);
        assert!(model.cost_scaled(100, 101) >= base);
        assert!(model.cost_scaled(5000, 7000) >= base);
    }
}
