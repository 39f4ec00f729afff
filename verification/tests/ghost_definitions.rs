use std::collections::{HashMap, HashSet};

use unhaunter::gear::flashlight::Flashlight;
use unhaunter::gear::switchable::Thermometer;
use unhaunter::gear::{Gear, GearKind};
use unhaunter::ghost_definitions::{Evidence, EvidenceError, GhostType};

#[test]
fn test_generate_evidence_combinations() {
    for i in 0..256 {
        let mut nbits = 0;
        for n in 0..8 {
            if (i >> n) & 0x1 > 0 {
                nbits += 1;
            }
        }
        if nbits == 5 {
            println!("0b{:08b}", i);
        }
    }
}

#[test]
fn test_unique_evidence_combinations() {
    let mut all_combinations: HashSet<String> = HashSet::new();
    for ghost in GhostType::all() {
        let mut evidences = ghost
            .evidences()
            .to_vec()
            .into_iter()
            .map(|x| x.name())
            .collect::<Vec<_>>();
        evidences.sort();
        let evidences = evidences.join("|");
        assert!(
            all_combinations.insert(evidences),
            "Found duplicate evidence set for {:?}",
            ghost
        );
    }
}

#[test]
fn test_evidence_per_ghost() {
    for ghost in GhostType::all() {
        let evidences = ghost
            .evidences()
            .to_vec()
            .into_iter()
            .map(|x| x.name())
            .collect::<Vec<_>>();
        assert!(
            evidences.len() == 5,
            "The ghost {:?} does not have 5 evidences, instead it has: {:?}",
            ghost,
            evidences
        );
    }
}

#[test]
fn test_balanced_evidence_usage() {
    let mut evidence_count: HashMap<Evidence, usize> = HashMap::new();
    for ghost in GhostType::all() {
        for &evidence in &ghost.evidences().to_vec() {
            *evidence_count.entry(evidence).or_insert(0) += 1;
        }
    }
    let avg_use = evidence_count.values().sum::<usize>() / evidence_count.len();
    for (&evidence, &count) in &evidence_count {
        println!("Evidence {:?} used {} times", evidence, count);
    }
    for (&evidence, &count) in &evidence_count {
        assert!(
            (count as i32 - avg_use as i32).abs() <= 3,
            "Evidence {:?} is used an unbalanced number of times: {} (avg: {})",
            evidence,
            count,
            avg_use
        );
    }
}

#[test]
fn evidence_usage_counts_are_exact() {
    let mut counts = [0usize; 8];
    for ghost in GhostType::all() {
        for e in ghost.evidences().to_vec() {
            counts[e.index() as usize] += 1;
        }
    }
    assert_eq!(counts, [27, 29, 29, 25, 29, 28, 26, 27]);
    assert_eq!(counts.iter().sum::<usize>(), 220);
}

#[test]
fn evidence_names_and_help() {
    assert_eq!(Evidence::FreezingTemp.name(), "Freezing Temps");
    assert_eq!(Evidence::CPM500.name(), "500+ cpm");
    assert_eq!(Evidence::RLPresence.name(), "RL Presence");
    assert!(Evidence::UVEctoplasm
        .help_text()
        .starts_with("Check if the ghost turns green under UV."));
}

#[test]
fn evidence_from_bits_round_trip() {
    let set = Evidence::from_bits(0b0001_0011);
    assert_eq!(set.len(), 3);
    assert!(set.contains(&Evidence::FreezingTemp));
    assert!(set.contains(&Evidence::FloatingOrbs));
    assert!(set.contains(&Evidence::EVPRecording));
    assert!(!set.contains(&Evidence::EMFLevel5));
    assert_eq!(
        set.to_vec(),
        vec![Evidence::FreezingTemp, Evidence::FloatingOrbs, Evidence::EVPRecording]
    );
}

#[test]
fn every_ghost_type_is_listed_once() {
    let all = GhostType::all();
    assert_eq!(all.len(), 44);
    let names: HashSet<&str> = all.iter().map(|g| g.name()).collect();
    assert_eq!(names.len(), 44);
}

#[test]
fn evidence_from_gear() {
    let thermo = GearKind::Thermometer(Thermometer::new());
    assert_eq!(Evidence::try_from(&thermo), Ok(Evidence::FreezingTemp));
    let torch = GearKind::Flashlight(Flashlight::new());
    assert_eq!(Evidence::try_from(&torch), Err(EvidenceError::NoEvidenceForGear));
    assert_eq!(Gear::none().kind.is_none(), true);
}
