//! The built-in walkthrough dataset: nine routes with their chapters, steps
//! and prerequisite links. Each constructor pins down the route's name, its
//! prerequisites, its shape (chapters, step counts, identifiers) and that
//! every step starts out not completed.

use vstd::prelude::*;

use crate::models::{
    Chapter, Polarity, PromptChoice, Route, RouteView, Step, StepType, prereqs_resolve,
    route_fresh, route_ids_distinct, route_ids_prefixed, route_total_steps, step_ids_unique,
    step_in_route, total_steps_of,
};

verus! {

fn create_silent_sky_route() -> (r: Route)
    ensures
        r@.name == "Silent Sky"@,
        r@.prerequisites.len() == 0,
        r@.chapters.len() == 4,
        r@.chapters[0].number == 1 && r@.chapters[0].steps.len() == 1,
        r@.chapters[1].number == 2 && r@.chapters[1].steps.len() == 1,
        r@.chapters[2].number == 6 && r@.chapters[2].steps.len() == 3,
        r@.chapters[3].number == 10 && r@.chapters[3].steps.len() == 1,
        r@.chapters[0].steps[0].id == "silent_sky_ch1_swimsuit"@,
        r@.chapters[1].steps[0].id == "silent_sky_ch2_hospital"@,
        r@.chapters[2].steps[0].id == "silent_sky_ch6_save"@,
        r@.chapters[2].steps[1].id == "silent_sky_ch6_bad_ending"@,
        r@.chapters[2].steps[2].id == "silent_sky_ch6_proceed"@,
        r@.chapters[3].steps[0].id == "silent_sky_ch10_ending"@,
        route_fresh(r@),
        route_total_steps(r@) == 6,
        route_ids_distinct(r@),
        route_ids_prefixed(r@, 's', 'i', 'l'),
{
    let r = Route {
        name: "Silent Sky".to_string(),
        description: "The first ending - complete the basic story path".to_string(),
        prerequisites: vec![],
        chapters: vec![
            Chapter {
                number: 1,
                name: "Chapter One".to_string(),
                steps: vec![
                    Step {
                        id: "silent_sky_ch1_swimsuit".to_string(),
                        description: "Answer swimsuit questions as you'd like".to_string(),
                        step_type: StepType::GeneralInstruction {
                            instruction: "Series of YES/NO questions about school swimsuits".to_string(),
                        },
                        completed: false,
                    },
                ],
            },
            Chapter {
                number: 2,
                name: "Chapter Two".to_string(),
                steps: vec![
                    Step {
                        id: "silent_sky_ch2_hospital".to_string(),
                        description: "Answer hospital checklist questions as you'd like".to_string(),
                        step_type: StepType::GeneralInstruction {
                            instruction: "Checklist questions when Takumi visits hospital - results appear in TIPS menu".to_string(),
                        },
                        completed: false,
                    },
                ],
            },
            Chapter {
                number: 6,
                name: "Chapter Six".to_string(),
                steps: vec![
                    Step {
                        id: "silent_sky_ch6_save".to_string(),
                        description: "Save your game before O-FRONT scene".to_string(),
                        step_type: StepType::Checkpoint {
                            save_point: "Before O-FRONT YES/NO questions".to_string(),
                        },
                        completed: false,
                    },
                    Step {
                        id: "silent_sky_ch6_bad_ending".to_string(),
                        description: "Optional: View bad ending (NO, NO, NO)".to_string(),
                        step_type: StepType::YesNoPrompts {
                            prompts: vec![
                                PromptChoice { question: "First O-FRONT question".to_string(), answer: false },
                                PromptChoice { question: "Second O-FRONT question".to_string(), answer: false },
                                PromptChoice { question: "Third O-FRONT question".to_string(), answer: false },
                            ],
                        },
                        completed: false,
                    },
                    Step {
                        id: "silent_sky_ch6_proceed".to_string(),
                        description: "Proceed with story (YES, YES, NO, NO, YES)".to_string(),
                        step_type: StepType::YesNoPrompts {
                            prompts: vec![
                                PromptChoice { question: "First O-FRONT question".to_string(), answer: true },
                                PromptChoice { question: "Second O-FRONT question".to_string(), answer: true },
                                PromptChoice { question: "Third O-FRONT question".to_string(), answer: false },
                                PromptChoice { question: "Fourth O-FRONT question".to_string(), answer: false },
                                PromptChoice { question: "Fifth O-FRONT question".to_string(), answer: true },
                            ],
                        },
                        completed: false,
                    },
                ],
            },
            Chapter {
                number: 10,
                name: "Chapter Ten".to_string(),
                steps: vec![
                    Step {
                        id: "silent_sky_ch10_ending".to_string(),
                        description: "Achieve Silent Sky ending".to_string(),
                        step_type: StepType::GeneralInstruction {
                            instruction: "Silent Sky ending will occur during this chapter".to_string(),
                        },
                        completed: false,
                    },
                ],
            },
        ],
    };
    proof {
        reveal_with_fuel(total_steps_of, 6);
        assert(route_total_steps(r@) == 6);
        // the step identifiers: pairwise distinct, sharing the route's prefix
        reveal_strlit("silent_sky_ch1_swimsuit");
        reveal_strlit("silent_sky_ch2_hospital");
        reveal_strlit("silent_sky_ch6_save");
        reveal_strlit("silent_sky_ch6_bad_ending");
        reveal_strlit("silent_sky_ch6_proceed");
        reveal_strlit("silent_sky_ch10_ending");
        assert("silent_sky_ch1_swimsuit"@[13] != "silent_sky_ch2_hospital"@[13]);
        assert("silent_sky_ch1_swimsuit"@.len() != "silent_sky_ch6_save"@.len());
        assert("silent_sky_ch1_swimsuit"@.len() != "silent_sky_ch6_bad_ending"@.len());
        assert("silent_sky_ch1_swimsuit"@.len() != "silent_sky_ch6_proceed"@.len());
        assert("silent_sky_ch1_swimsuit"@.len() != "silent_sky_ch10_ending"@.len());
        assert("silent_sky_ch2_hospital"@.len() != "silent_sky_ch6_save"@.len());
        assert("silent_sky_ch2_hospital"@.len() != "silent_sky_ch6_bad_ending"@.len());
        assert("silent_sky_ch2_hospital"@.len() != "silent_sky_ch6_proceed"@.len());
        assert("silent_sky_ch2_hospital"@.len() != "silent_sky_ch10_ending"@.len());
        assert("silent_sky_ch6_save"@.len() != "silent_sky_ch6_bad_ending"@.len());
        assert("silent_sky_ch6_save"@.len() != "silent_sky_ch6_proceed"@.len());
        assert("silent_sky_ch6_save"@.len() != "silent_sky_ch10_ending"@.len());
        assert("silent_sky_ch6_bad_ending"@.len() != "silent_sky_ch6_proceed"@.len());
        assert("silent_sky_ch6_bad_ending"@.len() != "silent_sky_ch10_ending"@.len());
        assert("silent_sky_ch6_proceed"@[13] != "silent_sky_ch10_ending"@[13]);
        assert("silent_sky_ch1_swimsuit"@.len() >= 3 && "silent_sky_ch1_swimsuit"@[0] == 's' && "silent_sky_ch1_swimsuit"@[1] == 'i' && "silent_sky_ch1_swimsuit"@[2] == 'l');
        assert("silent_sky_ch2_hospital"@.len() >= 3 && "silent_sky_ch2_hospital"@[0] == 's' && "silent_sky_ch2_hospital"@[1] == 'i' && "silent_sky_ch2_hospital"@[2] == 'l');
        assert("silent_sky_ch6_save"@.len() >= 3 && "silent_sky_ch6_save"@[0] == 's' && "silent_sky_ch6_save"@[1] == 'i' && "silent_sky_ch6_save"@[2] == 'l');
        assert("silent_sky_ch6_bad_ending"@.len() >= 3 && "silent_sky_ch6_bad_ending"@[0] == 's' && "silent_sky_ch6_bad_ending"@[1] == 'i' && "silent_sky_ch6_bad_ending"@[2] == 'l');
        assert("silent_sky_ch6_proceed"@.len() >= 3 && "silent_sky_ch6_proceed"@[0] == 's' && "silent_sky_ch6_proceed"@[1] == 'i' && "silent_sky_ch6_proceed"@[2] == 'l');
        assert("silent_sky_ch10_ending"@.len() >= 3 && "silent_sky_ch10_ending"@[0] == 's' && "silent_sky_ch10_ending"@[1] == 'i' && "silent_sky_ch10_ending"@[2] == 'l');
        assert(route_ids_distinct(r@));
        assert(route_ids_prefixed(r@, 's', 'i', 'l'));
    }
    r
}

fn create_crying_sky_route() -> (r: Route)
    ensures
        r@.name == "Crying Sky"@,
        r@.prerequisites.len() == 1,
        r@.prerequisites[0] == "Silent Sky"@,
        r@.chapters.len() == 3,
        r@.chapters[0].number == 0 && r@.chapters[0].steps.len() == 1,
        r@.chapters[1].number == 1 && r@.chapters[1].steps.len() == 2,
        r@.chapters[2].number == 2 && r@.chapters[2].steps.len() == 2,
        r@.chapters[0].steps[0].id == "crying_sky_setup"@,
        r@.chapters[1].steps[0].id == "crying_sky_dt1"@,
        r@.chapters[1].steps[1].id == "crying_sky_dt3"@,
        r@.chapters[2].steps[0].id == "crying_sky_dt8"@,
        r@.chapters[2].steps[1].id == "crying_sky_dt9"@,
        route_fresh(r@),
        route_total_steps(r@) == 5,
        route_ids_distinct(r@),
        route_ids_prefixed(r@, 'c', 'r', 'y'),
{
    let r = Route {
        name: "Crying Sky".to_string(),
        description: "View at least 11 delusions throughout the story".to_string(),
        prerequisites: vec!["Silent Sky".to_string()],
        chapters: vec![
            Chapter {
                number: 0,
                name: "Setup".to_string(),
                steps: vec![
                    Step {
                        id: "crying_sky_setup".to_string(),
                        description: "Start new game after Silent Sky ending".to_string(),
                        step_type: StepType::GeneralInstruction {
                            instruction: "Use Skip mode to fast-forward through read text. Answer NO to all heroine YES/NO prompts.".to_string(),
                        },
                        completed: false,
                    },
                ],
            },
            Chapter {
                number: 1,
                name: "Chapter One".to_string(),
                steps: vec![
                    Step {
                        id: "crying_sky_dt1".to_string(),
                        description: "Delusion Trigger #1: In class, talking to Misumi - Neutral".to_string(),
                        step_type: StepType::DelusionTrigger {
                            trigger_number: 1,
                            polarity: Polarity::Neutral,
                            location: "While in class, talking to Misumi".to_string(),
                        },
                        completed: false,
                    },
                    Step {
                        id: "crying_sky_dt3".to_string(),
                        description: "Delusion Trigger #3: Yua looking at you from across the street - Neutral".to_string(),
                        step_type: StepType::DelusionTrigger {
                            trigger_number: 3,
                            polarity: Polarity::Neutral,
                            location: "Yua is looking at you from across the street".to_string(),
                        },
                        completed: false,
                    },
                ],
            },
            Chapter {
                number: 2,
                name: "Chapter Two".to_string(),
                steps: vec![
                    Step {
                        id: "crying_sky_dt8".to_string(),
                        description: "Delusion Trigger #8: During Phantasm performance, watching FES - Positive".to_string(),
                        step_type: StepType::DelusionTrigger {
                            trigger_number: 8,
                            polarity: Polarity::Positive,
                            location: "During the Phantasm performance, while watching FES".to_string(),
                        },
                        completed: false,
                    },
                    Step {
                        id: "crying_sky_dt9".to_string(),
                        description: "Delusion Trigger #9: After Phantasm performance, playing ESO - Positive".to_string(),
                        step_type: StepType::DelusionTrigger {
                            trigger_number: 9,
                            polarity: Polarity::Positive,
                            location: "After the Phantasm performance, while playing ESO".to_string(),
                        },
                        completed: false,
                    },
                ],
            },
        ],
    };
    proof {
        reveal_with_fuel(total_steps_of, 5);
        assert(route_total_steps(r@) == 5);
        // the step identifiers: pairwise distinct, sharing the route's prefix
        reveal_strlit("crying_sky_setup");
        reveal_strlit("crying_sky_dt1");
        reveal_strlit("crying_sky_dt3");
        reveal_strlit("crying_sky_dt8");
        reveal_strlit("crying_sky_dt9");
        assert("crying_sky_setup"@.len() != "crying_sky_dt1"@.len());
        assert("crying_sky_setup"@.len() != "crying_sky_dt3"@.len());
        assert("crying_sky_setup"@.len() != "crying_sky_dt8"@.len());
        assert("crying_sky_setup"@.len() != "crying_sky_dt9"@.len());
        assert("crying_sky_dt1"@[13] != "crying_sky_dt3"@[13]);
        assert("crying_sky_dt1"@[13] != "crying_sky_dt8"@[13]);
        assert("crying_sky_dt1"@[13] != "crying_sky_dt9"@[13]);
        assert("crying_sky_dt3"@[13] != "crying_sky_dt8"@[13]);
        assert("crying_sky_dt3"@[13] != "crying_sky_dt9"@[13]);
        assert("crying_sky_dt8"@[13] != "crying_sky_dt9"@[13]);
        assert("crying_sky_setup"@.len() >= 3 && "crying_sky_setup"@[0] == 'c' && "crying_sky_setup"@[1] == 'r' && "crying_sky_setup"@[2] == 'y');
        assert("crying_sky_dt1"@.len() >= 3 && "crying_sky_dt1"@[0] == 'c' && "crying_sky_dt1"@[1] == 'r' && "crying_sky_dt1"@[2] == 'y');
        assert("crying_sky_dt3"@.len() >= 3 && "crying_sky_dt3"@[0] == 'c' && "crying_sky_dt3"@[1] == 'r' && "crying_sky_dt3"@[2] == 'y');
        assert("crying_sky_dt8"@.len() >= 3 && "crying_sky_dt8"@[0] == 'c' && "crying_sky_dt8"@[1] == 'r' && "crying_sky_dt8"@[2] == 'y');
        assert("crying_sky_dt9"@.len() >= 3 && "crying_sky_dt9"@[0] == 'c' && "crying_sky_dt9"@[1] == 'r' && "crying_sky_dt9"@[2] == 'y');
        assert(route_ids_distinct(r@));
        assert(route_ids_prefixed(r@, 'c', 'r', 'y'));
    }
    r
}

fn create_daydream_route() -> (r: Route)
    ensures
        r@.name == "Daydream"@,
        r@.prerequisites.len() == 1,
        r@.prerequisites[0] == "Crying Sky"@,
        r@.chapters.len() == 2,
        r@.chapters[0].number == 1 && r@.chapters[0].steps.len() == 3,
        r@.chapters[1].number == 6 && r@.chapters[1].steps.len() == 1,
        r@.chapters[0].steps[0].id == "daydream_dt1"@,
        r@.chapters[0].steps[1].id == "daydream_dt2"@,
        r@.chapters[0].steps[2].id == "daydream_nanami_choices"@,
        r@.chapters[1].steps[0].id == "daydream_ending"@,
        route_fresh(r@),
        route_total_steps(r@) == 4,
        route_ids_distinct(r@),
        route_ids_prefixed(r@, 'd', 'a', 'y'),
{
    let r = Route {
        name: "Daydream".to_string(),
        description: "Nanami's route - focus on her character choices".to_string(),
        prerequisites: vec!["Crying Sky".to_string()],
        chapters: vec![
            Chapter {
                number: 1,
                name: "Chapter One".to_string(),
                steps: vec![
                    Step {
                        id: "daydream_dt1".to_string(),
                        description: "Delusion Trigger #1: In class, talking to Misumi - Negative".to_string(),
                        step_type: StepType::DelusionTrigger {
                            trigger_number: 1,
                            polarity: Polarity::Negative,
                            location: "While in class, talking to Misumi".to_string(),
                        },
                        completed: false,
                    },
                    Step {
                        id: "daydream_dt2".to_string(),
                        description: "Delusion Trigger #2: In the Base with Nanami - Positive".to_string(),
                        step_type: StepType::DelusionTrigger {
                            trigger_number: 2,
                            polarity: Polarity::Positive,
                            location: "In the Base with Nanami".to_string(),
                        },
                        completed: false,
                    },
                    Step {
                        id: "daydream_nanami_choices".to_string(),
                        description: "Nanami relationship choices".to_string(),
                        step_type: StepType::YesNoPrompts {
                            prompts: vec![
                                PromptChoice { question: "I like big sister types more.".to_string(), answer: false },
                                PromptChoice { question: "I like girls with no chests.".to_string(), answer: true },
                                PromptChoice { question: "I have another 3D girlfriend besides you.".to_string(), answer: false },
                                PromptChoice { question: "You're cute, I'll admit that.".to_string(), answer: true },
                                PromptChoice { question: "I want to kiss you!".to_string(), answer: true },
                            ],
                        },
                        completed: false,
                    },
                ],
            },
            Chapter {
                number: 6,
                name: "Chapter Six".to_string(),
                steps: vec![
                    Step {
                        id: "daydream_ending".to_string(),
                        description: "Achieve Daydream ending".to_string(),
                        step_type: StepType::GeneralInstruction {
                            instruction: "Game will branch into Daydream ending in chapter six".to_string(),
                        },
                        completed: false,
                    },
                ],
            },
        ],
    };
    proof {
        reveal_with_fuel(total_steps_of, 3);
        assert(route_total_steps(r@) == 4);
        // the step identifiers: pairwise distinct, sharing the route's prefix
        reveal_strlit("daydream_dt1");
        reveal_strlit("daydream_dt2");
        reveal_strlit("daydream_nanami_choices");
        reveal_strlit("daydream_ending");
        assert("daydream_dt1"@[11] != "daydream_dt2"@[11]);
        assert("daydream_dt1"@.len() != "daydream_nanami_choices"@.len());
        assert("daydream_dt1"@.len() != "daydream_ending"@.len());
        assert("daydream_dt2"@.len() != "daydream_nanami_choices"@.len());
        assert("daydream_dt2"@.len() != "daydream_ending"@.len());
        assert("daydream_nanami_choices"@.len() != "daydream_ending"@.len());
        assert("daydream_dt1"@.len() >= 3 && "daydream_dt1"@[0] == 'd' && "daydream_dt1"@[1] == 'a' && "daydream_dt1"@[2] == 'y');
        assert("daydream_dt2"@.len() >= 3 && "daydream_dt2"@[0] == 'd' && "daydream_dt2"@[1] == 'a' && "daydream_dt2"@[2] == 'y');
        assert("daydream_nanami_choices"@.len() >= 3 && "daydream_nanami_choices"@[0] == 'd' && "daydream_nanami_choices"@[1] == 'a' && "daydream_nanami_choices"@[2] == 'y');
        assert("daydream_ending"@.len() >= 3 && "daydream_ending"@[0] == 'd' && "daydream_ending"@[1] == 'a' && "daydream_ending"@[2] == 'y');
        assert(route_ids_distinct(r@));
        assert(route_ids_prefixed(r@, 'd', 'a', 'y'));
    }
    r
}

fn create_moon_and_sun_route() -> (r: Route)
    ensures
        r@.name == "Moon and Sun"@,
        r@.prerequisites.len() == 1,
        r@.prerequisites[0] == "Crying Sky"@,
        r@.chapters.len() == 2,
        r@.chapters[0].number == 1 && r@.chapters[0].steps.len() == 2,
        r@.chapters[1].number == 7 && r@.chapters[1].steps.len() == 1,
        r@.chapters[0].steps[0].id == "moon_sun_dt1"@,
        r@.chapters[0].steps[1].id == "moon_sun_yua_choices"@,
        r@.chapters[1].steps[0].id == "moon_sun_ending"@,
        route_fresh(r@),
        route_total_steps(r@) == 3,
        route_ids_distinct(r@),
        route_ids_prefixed(r@, 'm', 'o', 'o'),
{
    let r = Route {
        name: "Moon and Sun".to_string(),
        description: "Yua's route - focus on her character choices".to_string(),
        prerequisites: vec!["Crying Sky".to_string()],
        chapters: vec![
            Chapter {
                number: 1,
                name: "Chapter One".to_string(),
                steps: vec![
                    Step {
                        id: "moon_sun_dt1".to_string(),
                        description: "Delusion Trigger #1: In class, talking to Misumi - Neutral".to_string(),
                        step_type: StepType::DelusionTrigger {
                            trigger_number: 1,
                            polarity: Polarity::Neutral,
                            location: "While in class, talking to Misumi".to_string(),
                        },
                        completed: false,
                    },
                    Step {
                        id: "moon_sun_yua_choices".to_string(),
                        description: "Yua relationship choices".to_string(),
                        step_type: StepType::YesNoPrompts {
                            prompts: vec![
                                PromptChoice { question: "It's just a coincidence.".to_string(), answer: false },
                                PromptChoice { question: "I'm hallucinating.".to_string(), answer: false },
                                PromptChoice { question: "Whoever did it is inside the school.".to_string(), answer: true },
                                PromptChoice { question: "They're taunting me.".to_string(), answer: true },
                                PromptChoice { question: "I want to erase it now.".to_string(), answer: true },
                            ],
                        },
                        completed: false,
                    },
                ],
            },
            Chapter {
                number: 7,
                name: "Chapter Seven".to_string(),
                steps: vec![
                    Step {
                        id: "moon_sun_ending".to_string(),
                        description: "Achieve Moon and Sun ending".to_string(),
                        step_type: StepType::GeneralInstruction {
                            instruction: "Game will branch into Moon and Sun ending in chapter seven".to_string(),
                        },
                        completed: false,
                    },
                ],
            },
        ],
    };
    proof {
        reveal_with_fuel(total_steps_of, 3);
        assert(route_total_steps(r@) == 3);
        // the step identifiers: pairwise distinct, sharing the route's prefix
        reveal_strlit("moon_sun_dt1");
        reveal_strlit("moon_sun_yua_choices");
        reveal_strlit("moon_sun_ending");
        assert("moon_sun_dt1"@.len() != "moon_sun_yua_choices"@.len());
        assert("moon_sun_dt1"@.len() != "moon_sun_ending"@.len());
        assert("moon_sun_yua_choices"@.len() != "moon_sun_ending"@.len());
        assert("moon_sun_dt1"@.len() >= 3 && "moon_sun_dt1"@[0] == 'm' && "moon_sun_dt1"@[1] == 'o' && "moon_sun_dt1"@[2] == 'o');
        assert("moon_sun_yua_choices"@.len() >= 3 && "moon_sun_yua_choices"@[0] == 'm' && "moon_sun_yua_choices"@[1] == 'o' && "moon_sun_yua_choices"@[2] == 'o');
        assert("moon_sun_ending"@.len() >= 3 && "moon_sun_ending"@[0] == 'm' && "moon_sun_ending"@[1] == 'o' && "moon_sun_ending"@[2] == 'o');
        assert(route_ids_distinct(r@));
        assert(route_ids_prefixed(r@, 'm', 'o', 'o'));
    }
    r
}

fn create_bloody_contract_route() -> (r: Route)
    ensures
        r@.name == "A Bloody Contract for Your Sins"@,
        r@.prerequisites.len() == 1,
        r@.prerequisites[0] == "Crying Sky"@,
        r@.chapters.len() == 3,
        r@.chapters[0].number == 1 && r@.chapters[0].steps.len() == 2,
        r@.chapters[1].number == 2 && r@.chapters[1].steps.len() == 2,
        r@.chapters[2].number == 7 && r@.chapters[2].steps.len() == 1,
        r@.chapters[0].steps[0].id == "bloody_contract_dt1"@,
        r@.chapters[0].steps[1].id == "bloody_contract_dt2"@,
        r@.chapters[1].steps[0].id == "bloody_contract_dt8"@,
        r@.chapters[1].steps[1].id == "bloody_contract_ayase_choices"@,
        r@.chapters[2].steps[0].id == "bloody_contract_ending"@,
        route_fresh(r@),
        route_total_steps(r@) == 5,
        route_ids_distinct(r@),
        route_ids_prefixed(r@, 'b', 'l', 'o'),
{
    let r = Route {
        name: "A Bloody Contract for Your Sins".to_string(),
        description: "Ayase's route - focus on her character choices".to_string(),
        prerequisites: vec!["Crying Sky".to_string()],
        chapters: vec![
            Chapter {
                number: 1,
                name: "Chapter One".to_string(),
                steps: vec![
                    Step {
                        id: "bloody_contract_dt1".to_string(),
                        description: "Delusion Trigger #1: In class, talking to Misumi - Negative".to_string(),
                        step_type: StepType::DelusionTrigger {
                            trigger_number: 1,
                            polarity: Polarity::Negative,
                            location: "While in class, talking to Misumi".to_string(),
                        },
                        completed: false,
                    },
                    Step {
                        id: "bloody_contract_dt2".to_string(),
                        description: "Delusion Trigger #2: In the Base with Nanami - Negative or Neutral".to_string(),
                        step_type: StepType::DelusionTrigger {
                            trigger_number: 2,
                            polarity: Polarity::Negative,
                            location: "In the Base with Nanami".to_string(),
                        },
                        completed: false,
                    },
                ],
            },
            Chapter {
                number: 2,
                name: "Chapter Two".to_string(),
                steps: vec![
                    Step {
                        id: "bloody_contract_dt8".to_string(),
                        description: "Delusion Trigger #8: During Phantasm performance, watching FES - Negative".to_string(),
                        step_type: StepType::DelusionTrigger {
                            trigger_number: 8,
                            polarity: Polarity::Negative,
                            location: "During the Phantasm performance, while watching FES".to_string(),
                        },
                        completed: false,
                    },
                    Step {
                        id: "bloody_contract_ayase_choices".to_string(),
                        description: "Ayase relationship choices".to_string(),
                        step_type: StepType::YesNoPrompts {
                            prompts: vec![
                                PromptChoice { question: "FES wants me to save her.".to_string(), answer: true },
                                PromptChoice { question: "I want to give in to her temptation.".to_string(), answer: false },
                                PromptChoice { question: "It would feel so good to jump.".to_string(), answer: true },
                                PromptChoice { question: "I'd be willing to die if I could do it with FES.".to_string(), answer: true },
                                PromptChoice { question: "I want to be released from everything.".to_string(), answer: true },
                            ],
                        },
                        completed: false,
                    },
                ],
            },
            Chapter {
                number: 7,
                name: "Chapter Seven".to_string(),
                steps: vec![
                    Step {
                        id: "bloody_contract_ending".to_string(),
                        description: "Achieve A Bloody Contract for Your Sins ending".to_string(),
                        step_type: StepType::GeneralInstruction {
                            instruction: "Game will branch into A Bloody Contract for Your Sins ending in chapter seven".to_string(),
                        },
                        completed: false,
                    },
                ],
            },
        ],
    };
    proof {
        reveal_with_fuel(total_steps_of, 4);
        assert(route_total_steps(r@) == 5);
        // the step identifiers: pairwise distinct, sharing the route's prefix
        reveal_strlit("bloody_contract_dt1");
        reveal_strlit("bloody_contract_dt2");
        reveal_strlit("bloody_contract_dt8");
        reveal_strlit("bloody_contract_ayase_choices");
        reveal_strlit("bloody_contract_ending");
        assert("bloody_contract_dt1"@[18] != "bloody_contract_dt2"@[18]);
        assert("bloody_contract_dt1"@[18] != "bloody_contract_dt8"@[18]);
        assert("bloody_contract_dt1"@.len() != "bloody_contract_ayase_choices"@.len());
        assert("bloody_contract_dt1"@.len() != "bloody_contract_ending"@.len());
        assert("bloody_contract_dt2"@[18] != "bloody_contract_dt8"@[18]);
        assert("bloody_contract_dt2"@.len() != "bloody_contract_ayase_choices"@.len());
        assert("bloody_contract_dt2"@.len() != "bloody_contract_ending"@.len());
        assert("bloody_contract_dt8"@.len() != "bloody_contract_ayase_choices"@.len());
        assert("bloody_contract_dt8"@.len() != "bloody_contract_ending"@.len());
        assert("bloody_contract_ayase_choices"@.len() != "bloody_contract_ending"@.len());
        assert("bloody_contract_dt1"@.len() >= 3 && "bloody_contract_dt1"@[0] == 'b' && "bloody_contract_dt1"@[1] == 'l' && "bloody_contract_dt1"@[2] == 'o');
        assert("bloody_contract_dt2"@.len() >= 3 && "bloody_contract_dt2"@[0] == 'b' && "bloody_contract_dt2"@[1] == 'l' && "bloody_contract_dt2"@[2] == 'o');
        assert("bloody_contract_dt8"@.len() >= 3 && "bloody_contract_dt8"@[0] == 'b' && "bloody_contract_dt8"@[1] == 'l' && "bloody_contract_dt8"@[2] == 'o');
        assert("bloody_contract_ayase_choices"@.len() >= 3 && "bloody_contract_ayase_choices"@[0] == 'b' && "bloody_contract_ayase_choices"@[1] == 'l' && "bloody_contract_ayase_choices"@[2] == 'o');
        assert("bloody_contract_ending"@.len() >= 3 && "bloody_contract_ending"@[0] == 'b' && "bloody_contract_ending"@[1] == 'l' && "bloody_contract_ending"@[2] == 'o');
        assert(route_ids_distinct(r@));
        assert(route_ids_prefixed(r@, 'b', 'l', 'o'));
    }
    r
}

fn create_disease_slaughter_route() -> (r: Route)
    ensures
        r@.name == "A Disease that Leads to Slaughter"@,
        r@.prerequisites.len() == 1,
        r@.prerequisites[0] == "Crying Sky"@,
        r@.chapters.len() == 4,
        r@.chapters[0].number == 1 && r@.chapters[0].steps.len() == 2,
        r@.chapters[1].number == 2 && r@.chapters[1].steps.len() == 1,
        r@.chapters[2].number == 3 && r@.chapters[2].steps.len() == 3,
        r@.chapters[3].number == 7 && r@.chapters[3].steps.len() == 1,
        r@.chapters[0].steps[0].id == "disease_slaughter_dt1"@,
        r@.chapters[0].steps[1].id == "disease_slaughter_dt2"@,
        r@.chapters[1].steps[0].id == "disease_slaughter_dt8"@,
        r@.chapters[2].steps[0].id == "disease_slaughter_dt10"@,
        r@.chapters[2].steps[1].id == "disease_slaughter_dt13"@,
        r@.chapters[2].steps[2].id == "disease_slaughter_kozue_choices"@,
        r@.chapters[3].steps[0].id == "disease_slaughter_ending"@,
        route_fresh(r@),
        route_total_steps(r@) == 7,
        route_ids_distinct(r@),
        route_ids_prefixed(r@, 'd', 'i', 's'),
{
    let r = Route {
        name: "A Disease that Leads to Slaughter".to_string(),
        description: "Kozue's route - focus on her character choices".to_string(),
        prerequisites: vec!["Crying Sky".to_string()],
        chapters: vec![
            Chapter {
                number: 1,
                name: "Chapter One".to_string(),
                steps: vec![
                    Step {
                        id: "disease_slaughter_dt1".to_string(),
                        description: "Delusion Trigger #1: In class, talking to Misumi - Negative".to_string(),
                        step_type: StepType::DelusionTrigger {
                            trigger_number: 1,
                            polarity: Polarity::Negative,
                            location: "While in class, talking to Misumi".to_string(),
                        },
                        completed: false,
                    },
                    Step {
                        id: "disease_slaughter_dt2".to_string(),
                        description: "Delusion Trigger #2: In the Base with Nanami - Negative or Neutral".to_string(),
                        step_type: StepType::DelusionTrigger {
                            trigger_number: 2,
                            polarity: Polarity::Negative,
                            location: "In the Base with Nanami".to_string(),
                        },
                        completed: false,
                    },
                ],
            },
            Chapter {
                number: 2,
                name: "Chapter Two".to_string(),
                steps: vec![
                    Step {
                        id: "disease_slaughter_dt8".to_string(),
                        description: "Delusion Trigger #8: During Phantasm performance, watching FES - Positive or Neutral".to_string(),
                        step_type: StepType::DelusionTrigger {
                            trigger_number: 8,
                            polarity: Polarity::Positive,
                            location: "During the Phantasm performance, while watching FES".to_string(),
                        },
                        completed: false,
                    },
                ],
            },
            Chapter {
                number: 3,
                name: "Chapter Three".to_string(),
                steps: vec![
                    Step {
                        id: "disease_slaughter_dt10".to_string(),
                        description: "Delusion Trigger #10: At Center Street with Sena - Positive or Negative".to_string(),
                        step_type: StepType::DelusionTrigger {
                            trigger_number: 10,
                            polarity: Polarity::Positive,
                            location: "At Center Street with Sena".to_string(),
                        },
                        completed: false,
                    },
                    Step {
                        id: "disease_slaughter_dt13".to_string(),
                        description: "Delusion Trigger #13: In classroom, Kozue has joined your class - Positive".to_string(),
                        step_type: StepType::DelusionTrigger {
                            trigger_number: 13,
                            polarity: Polarity::Positive,
                            location: "In the classroom, Kozue has just joined your class".to_string(),
                        },
                        completed: false,
                    },
                    Step {
                        id: "disease_slaughter_kozue_choices".to_string(),
                        description: "Kozue relationship choices".to_string(),
                        step_type: StepType::YesNoPrompts {
                            prompts: vec![
                                PromptChoice { question: "She came to save me?".to_string(), answer: true },
                                PromptChoice { question: "The transfer student is a professional exorcist.".to_string(), answer: true },
                                PromptChoice { question: "Her wimpy looks are actually camouflage.".to_string(), answer: true },
                                PromptChoice { question: "She is here to kill Rimi.".to_string(), answer: true },
                                PromptChoice { question: "You two kill each other!".to_string(), answer: false },
                            ],
                        },
                        completed: false,
                    },
                ],
            },
            Chapter {
                number: 7,
                name: "Chapter Seven".to_string(),
                steps: vec![
                    Step {
                        id: "disease_slaughter_ending".to_string(),
                        description: "Achieve A Disease that Leads to Slaughter ending".to_string(),
                        step_type: StepType::GeneralInstruction {
                            instruction: "Game will branch into A Disease that Leads to Slaughter ending in chapter seven".to_string(),
                        },
                        completed: false,
                    },
                ],
            },
        ],
    };
    proof {
        reveal_with_fuel(total_steps_of, 5);
        assert(route_total_steps(r@) == 7);
        // the step identifiers: pairwise distinct, sharing the route's prefix
        reveal_strlit("disease_slaughter_dt1");
        reveal_strlit("disease_slaughter_dt2");
        reveal_strlit("disease_slaughter_dt8");
        reveal_strlit("disease_slaughter_dt10");
        reveal_strlit("disease_slaughter_dt13");
        reveal_strlit("disease_slaughter_kozue_choices");
        reveal_strlit("disease_slaughter_ending");
        assert("disease_slaughter_dt1"@[20] != "disease_slaughter_dt2"@[20]);
        assert("disease_slaughter_dt1"@[20] != "disease_slaughter_dt8"@[20]);
        assert("disease_slaughter_dt1"@.len() != "disease_slaughter_dt10"@.len());
        assert("disease_slaughter_dt1"@.len() != "disease_slaughter_dt13"@.len());
        assert("disease_slaughter_dt1"@.len() != "disease_slaughter_kozue_choices"@.len());
        assert("disease_slaughter_dt1"@.len() != "disease_slaughter_ending"@.len());
        assert("disease_slaughter_dt2"@[20] != "disease_slaughter_dt8"@[20]);
        assert("disease_slaughter_dt2"@.len() != "disease_slaughter_dt10"@.len());
        assert("disease_slaughter_dt2"@.len() != "disease_slaughter_dt13"@.len());
        assert("disease_slaughter_dt2"@.len() != "disease_slaughter_kozue_choices"@.len());
        assert("disease_slaughter_dt2"@.len() != "disease_slaughter_ending"@.len());
        assert("disease_slaughter_dt8"@.len() != "disease_slaughter_dt10"@.len());
        assert("disease_slaughter_dt8"@.len() != "disease_slaughter_dt13"@.len());
        assert("disease_slaughter_dt8"@.len() != "disease_slaughter_kozue_choices"@.len());
        assert("disease_slaughter_dt8"@.len() != "disease_slaughter_ending"@.len());
        assert("disease_slaughter_dt10"@[21] != "disease_slaughter_dt13"@[21]);
        assert("disease_slaughter_dt10"@.len() != "disease_slaughter_kozue_choices"@.len());
        assert("disease_slaughter_dt10"@.len() != "disease_slaughter_ending"@.len());
        assert("disease_slaughter_dt13"@.len() != "disease_slaughter_kozue_choices"@.len());
        assert("disease_slaughter_dt13"@.len() != "disease_slaughter_ending"@.len());
        assert("disease_slaughter_kozue_choices"@.len() != "disease_slaughter_ending"@.len());
        assert("disease_slaughter_dt1"@.len() >= 3 && "disease_slaughter_dt1"@[0] == 'd' && "disease_slaughter_dt1"@[1] == 'i' && "disease_slaughter_dt1"@[2] == 's');
        assert("disease_slaughter_dt2"@.len() >= 3 && "disease_slaughter_dt2"@[0] == 'd' && "disease_slaughter_dt2"@[1] == 'i' && "disease_slaughter_dt2"@[2] == 's');
        assert("disease_slaughter_dt8"@.len() >= 3 && "disease_slaughter_dt8"@[0] == 'd' && "disease_slaughter_dt8"@[1] == 'i' && "disease_slaughter_dt8"@[2] == 's');
        assert("disease_slaughter_dt10"@.len() >= 3 && "disease_slaughter_dt10"@[0] == 'd' && "disease_slaughter_dt10"@[1] == 'i' && "disease_slaughter_dt10"@[2] == 's');
        assert("disease_slaughter_dt13"@.len() >= 3 && "disease_slaughter_dt13"@[0] == 'd' && "disease_slaughter_dt13"@[1] == 'i' && "disease_slaughter_dt13"@[2] == 's');
        assert("disease_slaughter_kozue_choices"@.len() >= 3 && "disease_slaughter_kozue_choices"@[0] == 'd' && "disease_slaughter_kozue_choices"@[1] == 'i' && "disease_slaughter_kozue_choices"@[2] == 's');
        assert("disease_slaughter_ending"@.len() >= 3 && "disease_slaughter_ending"@[0] == 'd' && "disease_slaughter_ending"@[1] == 'i' && "disease_slaughter_ending"@[2] == 's');
        assert(route_ids_distinct(r@));
        assert(route_ids_prefixed(r@, 'd', 'i', 's'));
    }
    r
}

fn create_deus_ex_machina_route() -> (r: Route)
    ensures
        r@.name == "Deus Ex Machina"@,
        r@.prerequisites.len() == 1,
        r@.prerequisites[0] == "Crying Sky"@,
        r@.chapters.len() == 4,
        r@.chapters[0].number == 1 && r@.chapters[0].steps.len() == 2,
        r@.chapters[1].number == 2 && r@.chapters[1].steps.len() == 1,
        r@.chapters[2].number == 3 && r@.chapters[2].steps.len() == 2,
        r@.chapters[3].number == 7 && r@.chapters[3].steps.len() == 1,
        r@.chapters[0].steps[0].id == "deus_ex_machina_dt1"@,
        r@.chapters[0].steps[1].id == "deus_ex_machina_dt2"@,
        r@.chapters[1].steps[0].id == "deus_ex_machina_dt8"@,
        r@.chapters[2].steps[0].id == "deus_ex_machina_dt10"@,
        r@.chapters[2].steps[1].id == "deus_ex_machina_sena_choices"@,
        r@.chapters[3].steps[0].id == "deus_ex_machina_ending"@,
        route_fresh(r@),
        route_total_steps(r@) == 6,
        route_ids_distinct(r@),
        route_ids_prefixed(r@, 'd', 'e', 'u'),
{
    let r = Route {
        name: "Deus Ex Machina".to_string(),
        description: "Sena's route - focus on her character choices".to_string(),
        prerequisites: vec!["Crying Sky".to_string()],
        chapters: vec![
            Chapter {
                number: 1,
                name: "Chapter One".to_string(),
                steps: vec![
                    Step {
                        id: "deus_ex_machina_dt1".to_string(),
                        description: "Delusion Trigger #1: In class, talking to Misumi - Negative".to_string(),
                        step_type: StepType::DelusionTrigger {
                            trigger_number: 1,
                            polarity: Polarity::Negative,
                            location: "While in class, talking to Misumi".to_string(),
                        },
                        completed: false,
                    },
                    Step {
                        id: "deus_ex_machina_dt2".to_string(),
                        description: "Delusion Trigger #2: In the Base with Nanami - Negative or Neutral".to_string(),
                        step_type: StepType::DelusionTrigger {
                            trigger_number: 2,
                            polarity: Polarity::Negative,
                            location: "In the Base with Nanami".to_string(),
                        },
                        completed: false,
                    },
                ],
            },
            Chapter {
                number: 2,
                name: "Chapter Two".to_string(),
                steps: vec![
                    Step {
                        id: "deus_ex_machina_dt8".to_string(),
                        description: "Delusion Trigger #8: During Phantasm performance, watching FES - Positive or Neutral".to_string(),
                        step_type: StepType::DelusionTrigger {
                            trigger_number: 8,
                            polarity: Polarity::Positive,
                            location: "During the Phantasm performance, while watching FES".to_string(),
                        },
                        completed: false,
                    },
                ],
            },
            Chapter {
                number: 3,
                name: "Chapter Three".to_string(),
                steps: vec![
                    Step {
                        id: "deus_ex_machina_dt10".to_string(),
                        description: "Delusion Trigger #10: At Center Street with Sena - Neutral".to_string(),
                        step_type: StepType::DelusionTrigger {
                            trigger_number: 10,
                            polarity: Polarity::Neutral,
                            location: "At Center Street with Sena".to_string(),
                        },
                        completed: false,
                    },
                    Step {
                        id: "deus_ex_machina_sena_choices".to_string(),
                        description: "Sena relationship choices".to_string(),
                        step_type: StepType::YesNoPrompts {
                            prompts: vec![
                                PromptChoice { question: "Look at me more.".to_string(), answer: true },
                                PromptChoice { question: "For her, I wouldn't mind begging on my knees.".to_string(), answer: true },
                                PromptChoice { question: "I wish she'd step on me, actually.".to_string(), answer: true },
                                PromptChoice { question: "That sword's going to run me through, isn't it? I can tell.".to_string(), answer: true },
                                PromptChoice { question: "She's going to kill me with that sword…".to_string(), answer: false },
                            ],
                        },
                        completed: false,
                    },
                ],
            },
            Chapter {
                number: 7,
                name: "Chapter Seven".to_string(),
                steps: vec![
                    Step {
                        id: "deus_ex_machina_ending".to_string(),
                        description: "Achieve Deus Ex Machina ending".to_string(),
                        step_type: StepType::GeneralInstruction {
                            instruction: "Game will branch into Deus Ex Machina ending in chapter seven".to_string(),
                        },
                        completed: false,
                    },
                ],
            },
        ],
    };
    proof {
        reveal_with_fuel(total_steps_of, 5);
        assert(route_total_steps(r@) == 6);
        // the step identifiers: pairwise distinct, sharing the route's prefix
        reveal_strlit("deus_ex_machina_dt1");
        reveal_strlit("deus_ex_machina_dt2");
        reveal_strlit("deus_ex_machina_dt8");
        reveal_strlit("deus_ex_machina_dt10");
        reveal_strlit("deus_ex_machina_sena_choices");
        reveal_strlit("deus_ex_machina_ending");
        assert("deus_ex_machina_dt1"@[18] != "deus_ex_machina_dt2"@[18]);
        assert("deus_ex_machina_dt1"@[18] != "deus_ex_machina_dt8"@[18]);
        assert("deus_ex_machina_dt1"@.len() != "deus_ex_machina_dt10"@.len());
        assert("deus_ex_machina_dt1"@.len() != "deus_ex_machina_sena_choices"@.len());
        assert("deus_ex_machina_dt1"@.len() != "deus_ex_machina_ending"@.len());
        assert("deus_ex_machina_dt2"@[18] != "deus_ex_machina_dt8"@[18]);
        assert("deus_ex_machina_dt2"@.len() != "deus_ex_machina_dt10"@.len());
        assert("deus_ex_machina_dt2"@.len() != "deus_ex_machina_sena_choices"@.len());
        assert("deus_ex_machina_dt2"@.len() != "deus_ex_machina_ending"@.len());
        assert("deus_ex_machina_dt8"@.len() != "deus_ex_machina_dt10"@.len());
        assert("deus_ex_machina_dt8"@.len() != "deus_ex_machina_sena_choices"@.len());
        assert("deus_ex_machina_dt8"@.len() != "deus_ex_machina_ending"@.len());
        assert("deus_ex_machina_dt10"@.len() != "deus_ex_machina_sena_choices"@.len());
        assert("deus_ex_machina_dt10"@.len() != "deus_ex_machina_ending"@.len());
        assert("deus_ex_machina_sena_choices"@.len() != "deus_ex_machina_ending"@.len());
        assert("deus_ex_machina_dt1"@.len() >= 3 && "deus_ex_machina_dt1"@[0] == 'd' && "deus_ex_machina_dt1"@[1] == 'e' && "deus_ex_machina_dt1"@[2] == 'u');
        assert("deus_ex_machina_dt2"@.len() >= 3 && "deus_ex_machina_dt2"@[0] == 'd' && "deus_ex_machina_dt2"@[1] == 'e' && "deus_ex_machina_dt2"@[2] == 'u');
        assert("deus_ex_machina_dt8"@.len() >= 3 && "deus_ex_machina_dt8"@[0] == 'd' && "deus_ex_machina_dt8"@[1] == 'e' && "deus_ex_machina_dt8"@[2] == 'u');
        assert("deus_ex_machina_dt10"@.len() >= 3 && "deus_ex_machina_dt10"@[0] == 'd' && "deus_ex_machina_dt10"@[1] == 'e' && "deus_ex_machina_dt10"@[2] == 'u');
        assert("deus_ex_machina_sena_choices"@.len() >= 3 && "deus_ex_machina_sena_choices"@[0] == 'd' && "deus_ex_machina_sena_choices"@[1] == 'e' && "deus_ex_machina_sena_choices"@[2] == 'u');
        assert("deus_ex_machina_ending"@.len() >= 3 && "deus_ex_machina_ending"@[0] == 'd' && "deus_ex_machina_ending"@[1] == 'e' && "deus_ex_machina_ending"@[2] == 'u');
        assert(route_ids_distinct(r@));
        assert(route_ids_prefixed(r@, 'd', 'e', 'u'));
    }
    r
}

fn create_anima_archetype_route() -> (r: Route)
    ensures
        r@.name == "Anima Archetype"@,
        r@.prerequisites.len() == 1,
        r@.prerequisites[0] == "Crying Sky"@,
        r@.chapters.len() == 2,
        r@.chapters[0].number == 1 && r@.chapters[0].steps.len() == 2,
        r@.chapters[1].number == 8 && r@.chapters[1].steps.len() == 1,
        r@.chapters[0].steps[0].id == "anima_archetype_dt1"@,
        r@.chapters[0].steps[1].id == "anima_archetype_rimi_choices"@,
        r@.chapters[1].steps[0].id == "anima_archetype_ending"@,
        route_fresh(r@),
        route_total_steps(r@) == 3,
        route_ids_distinct(r@),
        route_ids_prefixed(r@, 'a', 'n', 'i'),
{
    let r = Route {
        name: "Anima Archetype".to_string(),
        description: "Rimi's route - focus on her character choices".to_string(),
        prerequisites: vec!["Crying Sky".to_string()],
        chapters: vec![
            Chapter {
                number: 1,
                name: "Chapter One".to_string(),
                steps: vec![
                    Step {
                        id: "anima_archetype_dt1".to_string(),
                        description: "Delusion Trigger #1: In class, talking to Misumi - Positive".to_string(),
                        step_type: StepType::DelusionTrigger {
                            trigger_number: 1,
                            polarity: Polarity::Positive,
                            location: "While in class, talking to Misumi".to_string(),
                        },
                        completed: false,
                    },
                    Step {
                        id: "anima_archetype_rimi_choices".to_string(),
                        description: "Rimi appearance choices".to_string(),
                        step_type: StepType::YesNoPrompts {
                            prompts: vec![
                                PromptChoice { question: "…tied her hair with ribbons.".to_string(), answer: true },
                                PromptChoice { question: "…wore glasses.".to_string(), answer: false },
                                PromptChoice { question: "…wore over-the-knee socks.".to_string(), answer: true },
                                PromptChoice { question: "…wore a long skirt.".to_string(), answer: false },
                                PromptChoice { question: "…was posing like a soldier at attention.".to_string(), answer: true },
                            ],
                        },
                        completed: false,
                    },
                ],
            },
            Chapter {
                number: 8,
                name: "Chapter Eight".to_string(),
                steps: vec![
                    Step {
                        id: "anima_archetype_ending".to_string(),
                        description: "Achieve Anima Archetype ending".to_string(),
                        step_type: StepType::GeneralInstruction {
                            instruction: "Game will branch into Anima Archetype ending in chapter eight".to_string(),
                        },
                        completed: false,
                    },
                ],
            },
        ],
    };
    proof {
        reveal_with_fuel(total_steps_of, 3);
        assert(route_total_steps(r@) == 3);
        // the step identifiers: pairwise distinct, sharing the route's prefix
        reveal_strlit("anima_archetype_dt1");
        reveal_strlit("anima_archetype_rimi_choices");
        reveal_strlit("anima_archetype_ending");
        assert("anima_archetype_dt1"@.len() != "anima_archetype_rimi_choices"@.len());
        assert("anima_archetype_dt1"@.len() != "anima_archetype_ending"@.len());
        assert("anima_archetype_rimi_choices"@.len() != "anima_archetype_ending"@.len());
        assert("anima_archetype_dt1"@.len() >= 3 && "anima_archetype_dt1"@[0] == 'a' && "anima_archetype_dt1"@[1] == 'n' && "anima_archetype_dt1"@[2] == 'i');
        assert("anima_archetype_rimi_choices"@.len() >= 3 && "anima_archetype_rimi_choices"@[0] == 'a' && "anima_archetype_rimi_choices"@[1] == 'n' && "anima_archetype_rimi_choices"@[2] == 'i');
        assert("anima_archetype_ending"@.len() >= 3 && "anima_archetype_ending"@[0] == 'a' && "anima_archetype_ending"@[1] == 'n' && "anima_archetype_ending"@[2] == 'i');
        assert(route_ids_distinct(r@));
        assert(route_ids_prefixed(r@, 'a', 'n', 'i'));
    }
    r
}

fn create_blue_sky_route() -> (r: Route)
    ensures
        r@.name == "Blue Sky"@,
        r@.prerequisites.len() == 8,
        r@.prerequisites[0] == "Silent Sky"@,
        r@.prerequisites[1] == "Crying Sky"@,
        r@.prerequisites[2] == "Daydream"@,
        r@.prerequisites[3] == "Moon and Sun"@,
        r@.prerequisites[4] == "A Bloody Contract for Your Sins"@,
        r@.prerequisites[5] == "A Disease that Leads to Slaughter"@,
        r@.prerequisites[6] == "Deus Ex Machina"@,
        r@.prerequisites[7] == "Anima Archetype"@,
        r@.chapters.len() == 1,
        r@.chapters[0].number == 0 && r@.chapters[0].steps.len() == 3,
        r@.chapters[0].steps[0].id == "blue_sky_unlock"@,
        r@.chapters[0].steps[1].id == "blue_sky_final_choices"@,
        r@.chapters[0].steps[2].id == "blue_sky_ending"@,
        route_fresh(r@),
        route_total_steps(r@) == 3,
        route_ids_distinct(r@),
        route_ids_prefixed(r@, 'b', 'l', 'u'),
{
    let r = Route {
        name: "Blue Sky".to_string(),
        description: "True ending - complete all other routes first".to_string(),
        prerequisites: vec![
            "Silent Sky".to_string(),
            "Crying Sky".to_string(),
            "Daydream".to_string(),
            "Moon and Sun".to_string(),
            "A Bloody Contract for Your Sins".to_string(),
            "A Disease that Leads to Slaughter".to_string(),
            "Deus Ex Machina".to_string(),
            "Anima Archetype".to_string(),
        ],
        chapters: vec![
            Chapter {
                number: 0,
                name: "True Ending".to_string(),
                steps: vec![
                    Step {
                        id: "blue_sky_unlock".to_string(),
                        description: "Select 'blue sky' from main menu".to_string(),
                        step_type: StepType::GeneralInstruction {
                            instruction: "New main menu option unlocked after completing all other routes".to_string(),
                        },
                        completed: false,
                    },
                    Step {
                        id: "blue_sky_final_choices".to_string(),
                        description: "Final YES/NO sequence".to_string(),
                        step_type: StepType::YesNoPrompts {
                            prompts: vec![
                                PromptChoice { question: "Question 1".to_string(), answer: true },
                                PromptChoice { question: "Question 2".to_string(), answer: true },
                                PromptChoice { question: "Question 3".to_string(), answer: false },
                                PromptChoice { question: "Question 4".to_string(), answer: false },
                                PromptChoice { question: "Question 5".to_string(), answer: false },
                                PromptChoice { question: "Question 6".to_string(), answer: true },
                                PromptChoice { question: "Question 7".to_string(), answer: true },
                                PromptChoice { question: "Question 8".to_string(), answer: true },
                                PromptChoice { question: "Question 9".to_string(), answer: true },
                                PromptChoice { question: "Question 10".to_string(), answer: true },
                                PromptChoice { question: "Question 11".to_string(), answer: true },
                                PromptChoice { question: "Question 12".to_string(), answer: true },
                                PromptChoice { question: "Question 13".to_string(), answer: true },
                                PromptChoice { question: "Question 14".to_string(), answer: true },
                                PromptChoice { question: "Question 15".to_string(), answer: true },
                            ],
                        },
                        completed: false,
                    },
                    Step {
                        id: "blue_sky_ending".to_string(),
                        description: "Complete Chaos;Head NoAH".to_string(),
                        step_type: StepType::GeneralInstruction {
                            instruction: "Achieve Blue Sky ending and complete the game".to_string(),
                        },
                        completed: false,
                    },
                ],
            },
        ],
    };
    proof {
        reveal_with_fuel(total_steps_of, 2);
        assert(route_total_steps(r@) == 3);
        // the step identifiers: pairwise distinct, sharing the route's prefix
        reveal_strlit("blue_sky_unlock");
        reveal_strlit("blue_sky_final_choices");
        reveal_strlit("blue_sky_ending");
        assert("blue_sky_unlock"@.len() != "blue_sky_final_choices"@.len());
        assert("blue_sky_unlock"@[9] != "blue_sky_ending"@[9]);
        assert("blue_sky_final_choices"@.len() != "blue_sky_ending"@.len());
        assert("blue_sky_unlock"@.len() >= 3 && "blue_sky_unlock"@[0] == 'b' && "blue_sky_unlock"@[1] == 'l' && "blue_sky_unlock"@[2] == 'u');
        assert("blue_sky_final_choices"@.len() >= 3 && "blue_sky_final_choices"@[0] == 'b' && "blue_sky_final_choices"@[1] == 'l' && "blue_sky_final_choices"@[2] == 'u');
        assert("blue_sky_ending"@.len() >= 3 && "blue_sky_ending"@[0] == 'b' && "blue_sky_ending"@[1] == 'l' && "blue_sky_ending"@[2] == 'u');
        assert(route_ids_distinct(r@));
        assert(route_ids_prefixed(r@, 'b', 'l', 'u'));
    }
    r
}

/// The whole dataset: nine routes in display order, every step fresh, every
/// route's step total and prerequisite list pinned down, the step
/// identifiers unique across the dataset, and every prerequisite name
/// resolving to a route of the dataset.
#[verifier::rlimit(100)]
pub fn create_chaos_head_data() -> (routes: Vec<Route>)
    ensures
        routes@.len() == 9,
        routes@[0]@.name == "Silent Sky"@ && route_total_steps(routes@[0]@) == 6,
        routes@[1]@.name == "Crying Sky"@ && route_total_steps(routes@[1]@) == 5,
        routes@[2]@.name == "Daydream"@ && route_total_steps(routes@[2]@) == 4,
        routes@[3]@.name == "Moon and Sun"@ && route_total_steps(routes@[3]@) == 3,
        routes@[4]@.name == "A Bloody Contract for Your Sins"@ && route_total_steps(routes@[4]@)
            == 5,
        routes@[5]@.name == "A Disease that Leads to Slaughter"@ && route_total_steps(routes@[5]@)
            == 7,
        routes@[6]@.name == "Deus Ex Machina"@ && route_total_steps(routes@[6]@) == 6,
        routes@[7]@.name == "Anima Archetype"@ && route_total_steps(routes@[7]@) == 3,
        routes@[8]@.name == "Blue Sky"@ && route_total_steps(routes@[8]@) == 3,
        routes@[0]@.prerequisites.len() == 0,
        routes@[1]@.prerequisites.len() == 1 && routes@[1]@.prerequisites[0] == "Silent Sky"@,
        forall|k: int|
            2 <= k < 8 ==> (#[trigger] routes@[k]@.prerequisites).len() == 1
                && routes@[k]@.prerequisites[0] == "Crying Sky"@,
        routes@[8]@.prerequisites.len() == 8,
        routes@[8]@.prerequisites[0] == "Silent Sky"@,
        routes@[8]@.prerequisites[1] == "Crying Sky"@,
        routes@[8]@.prerequisites[2] == "Daydream"@,
        routes@[8]@.prerequisites[3] == "Moon and Sun"@,
        routes@[8]@.prerequisites[4] == "A Bloody Contract for Your Sins"@,
        routes@[8]@.prerequisites[5] == "A Disease that Leads to Slaughter"@,
        routes@[8]@.prerequisites[6] == "Deus Ex Machina"@,
        routes@[8]@.prerequisites[7] == "Anima Archetype"@,
        forall|k: int| 0 <= k < 9 ==> route_fresh(#[trigger] routes@[k]@),
        crate::models::routes_bounded(routes@.map_values(|r: Route| r@)),
        step_ids_unique(routes@.map_values(|r: Route| r@)),
        prereqs_resolve(routes@.map_values(|r: Route| r@)),
{
    let routes: Vec<Route> = vec![
        create_silent_sky_route(),
        create_crying_sky_route(),
        create_daydream_route(),
        create_moon_and_sun_route(),
        create_bloody_contract_route(),
        create_disease_slaughter_route(),
        create_deus_ex_machina_route(),
        create_anima_archetype_route(),
        create_blue_sky_route(),
    ];
    proof {
        let views = routes@.map_values(|r: Route| r@);
        assert forall|k: int| 0 <= k < views.len() implies route_total_steps(
            #[trigger] views[k],
        ) <= usize::MAX by {
            assert(views[k] == routes@[k]@);
        }
        assert(views[0] == routes@[0]@);
        assert(views[1] == routes@[1]@);
        assert(views[2] == routes@[2]@);
        assert(views[3] == routes@[3]@);
        assert(views[4] == routes@[4]@);
        assert(views[5] == routes@[5]@);
        assert(views[6] == routes@[6]@);
        assert(views[7] == routes@[7]@);
        assert(views[8] == routes@[8]@);
        // within one route the identifiers are pairwise distinct; across
        // routes the three-character identifier prefixes already differ
        assert(route_ids_prefixed(views[0], 's', 'i', 'l'));
        assert(route_ids_prefixed(views[1], 'c', 'r', 'y'));
        assert(route_ids_prefixed(views[2], 'd', 'a', 'y'));
        assert(route_ids_prefixed(views[3], 'm', 'o', 'o'));
        assert(route_ids_prefixed(views[4], 'b', 'l', 'o'));
        assert(route_ids_prefixed(views[5], 'd', 'i', 's'));
        assert(route_ids_prefixed(views[6], 'd', 'e', 'u'));
        assert(route_ids_prefixed(views[7], 'a', 'n', 'i'));
        assert(route_ids_prefixed(views[8], 'b', 'l', 'u'));
        assert forall|r1: int, c1: int, s1: int, r2: int, c2: int, s2: int|
            0 <= r1 < views.len() && step_in_route(views[r1], c1, s1) && 0 <= r2 < views.len()
                && step_in_route(views[r2], c2, s2) && #[trigger] views[r1].chapters[c1].steps[
                s1
            ].id == #[trigger] views[r2].chapters[c2].steps[s2].id implies r1 == r2 && c1 == c2
            && s1 == s2 by {
            let id1 = views[r1].chapters[c1].steps[s1].id;
            let id2 = views[r2].chapters[c2].steps[s2].id;
            if r1 != r2 {
                assert(id1[0] != id2[0] || id1[1] != id2[1] || id1[2] != id2[2]);
            } else {
                assert(route_ids_distinct(views[r1]));
            }
        }
        // every prerequisite name is one of the nine route names
        assert forall|r: int, p: int|
            0 <= r < views.len() && 0 <= p < views[r].prerequisites.len() implies exists|j: int|
            0 <= j < views.len() && views[j].name == #[trigger] views[r].prerequisites[p] by {
            assert(views[0].name == "Silent Sky"@);
            assert(views[1].name == "Crying Sky"@);
            assert(views[2].name == "Daydream"@);
            assert(views[3].name == "Moon and Sun"@);
            assert(views[4].name == "A Bloody Contract for Your Sins"@);
            assert(views[5].name == "A Disease that Leads to Slaughter"@);
            assert(views[6].name == "Deus Ex Machina"@);
            assert(views[7].name == "Anima Archetype"@);
            assert(views[8].name == "Blue Sky"@);
        }
    }
    routes
}

} // verus!
