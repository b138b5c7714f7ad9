//! The built-in technical vocabulary offered as recognition hints.

use vstd::prelude::*;

verus! {

/// The built-in technical vocabulary, in the order it is offered.
pub open spec fn tech_vocab() -> Seq<Seq<char>> {
    seq![
        "Rust"@,
        "Cargo"@,
        "crate"@,
        "trait"@,
        "impl"@,
        "lifetime"@,
        "borrow"@,
        "ownership"@,
        "async"@,
        "await"@,
        "tokio"@,
        "serde"@,
        "anyhow"@,
        "thiserror"@,
        "Kubernetes"@,
        "kubectl"@,
        "Pod"@,
        "Deployment"@,
        "Service"@,
        "ConfigMap"@,
        "Ingress"@,
        "Helm"@,
        "Namespace"@,
        "ReplicaSet"@,
        "StatefulSet"@,
        "DaemonSet"@,
        "CronJob"@,
        "YAML"@,
        "kubeconfig"@,
        "TypeScript"@,
        "JavaScript"@,
        "React"@,
        "Vue"@,
        "Node.js"@,
        "npm"@,
        "pnpm"@,
        "Vite"@,
        "webpack"@,
        "ESLint"@,
        "Prettier"@,
        "interface"@,
        "generic"@,
        "Promise"@,
        "async/await"@,
        "JSX"@,
        "TSX"@,
        "PostgreSQL"@,
        "MySQL"@,
        "Redis"@,
        "MongoDB"@,
        "SQLite"@,
        "Elasticsearch"@,
        "Kafka"@,
        "API"@,
        "REST"@,
        "GraphQL"@,
        "gRPC"@,
        "WebSocket"@,
        "JSON"@,
        "OAuth"@,
        "JWT"@,
        "Docker"@,
        "GitHub"@,
        "GitLab"@,
        "CI/CD"@,
        "DevOps"@,
        "Linux"@,
        "macOS"@,
        "Windows"@,
        "LLM"@,
        "GPT"@,
        "Whisper"@,
        "OpenAI"@,
        "embedding"@,
        "tokenizer"@,
        "fine-tuning"@,
        "inference"@,
    ]
}

/// The built-in technical vocabulary as string slices, in the order of `tech_vocab`.
pub fn tech_vocab_words() -> (v: Vec<&'static str>)
    ensures
        v@.len() == tech_vocab().len(),
        forall|i: int| 0 <= i < v@.len() ==> #[trigger] v@[i]@ == tech_vocab()[i],
{
    let v: Vec<&'static str> = vec![
        "Rust",
        "Cargo",
        "crate",
        "trait",
        "impl",
        "lifetime",
        "borrow",
        "ownership",
        "async",
        "await",
        "tokio",
        "serde",
        "anyhow",
        "thiserror",
        "Kubernetes",
        "kubectl",
        "Pod",
        "Deployment",
        "Service",
        "ConfigMap",
        "Ingress",
        "Helm",
        "Namespace",
        "ReplicaSet",
        "StatefulSet",
        "DaemonSet",
        "CronJob",
        "YAML",
        "kubeconfig",
        "TypeScript",
        "JavaScript",
        "React",
        "Vue",
        "Node.js",
        "npm",
        "pnpm",
        "Vite",
        "webpack",
        "ESLint",
        "Prettier",
        "interface",
        "generic",
        "Promise",
        "async/await",
        "JSX",
        "TSX",
        "PostgreSQL",
        "MySQL",
        "Redis",
        "MongoDB",
        "SQLite",
        "Elasticsearch",
        "Kafka",
        "API",
        "REST",
        "GraphQL",
        "gRPC",
        "WebSocket",
        "JSON",
        "OAuth",
        "JWT",
        "Docker",
        "GitHub",
        "GitLab",
        "CI/CD",
        "DevOps",
        "Linux",
        "macOS",
        "Windows",
        "LLM",
        "GPT",
        "Whisper",
        "OpenAI",
        "embedding",
        "tokenizer",
        "fine-tuning",
        "inference",
    ];
    assert(v@.len() == tech_vocab().len());
    v
}


/// The position in `tech_vocab` of a built-in word, told from its length
/// and a few of its characters; -1 for words matching none.
spec fn word_position(s: Seq<char>) -> int {
    if s.len() == 4 && s[0] == 'R' && s[1] == 'u' && s[2] == 's' && s[2] == 's' && s[3] == 't' {
        0

    } else if s.len() == 5 && s[0] == 'C' && s[1] == 'a' && s[2] == 'r' && s[3] == 'g' && s[4] == 'o' {
        1

    } else if s.len() == 5 && s[0] == 'c' && s[1] == 'r' && s[2] == 'a' && s[3] == 't' && s[4] == 'e' {
        2

    } else if s.len() == 5 && s[0] == 't' && s[1] == 'r' && s[2] == 'a' && s[3] == 'i' && s[4] == 't' {
        3

    } else if s.len() == 4 && s[0] == 'i' && s[1] == 'm' && s[2] == 'p' && s[2] == 'p' && s[3] == 'l' {
        4

    } else if s.len() == 8 && s[0] == 'l' && s[1] == 'i' && s[2] == 'f' && s[6] == 'm' && s[7] == 'e' {
        5

    } else if s.len() == 6 && s[0] == 'b' && s[1] == 'o' && s[2] == 'r' && s[4] == 'o' && s[5] == 'w' {
        6

    } else if s.len() == 9 && s[0] == 'o' && s[1] == 'w' && s[2] == 'n' && s[7] == 'i' && s[8] == 'p' {
        7

    } else if s.len() == 5 && s[0] == 'a' && s[1] == 's' && s[2] == 'y' && s[3] == 'n' && s[4] == 'c' {
        8

    } else if s.len() == 5 && s[0] == 'a' && s[1] == 'w' && s[2] == 'a' && s[3] == 'i' && s[4] == 't' {
        9

    } else if s.len() == 5 && s[0] == 't' && s[1] == 'o' && s[2] == 'k' && s[3] == 'i' && s[4] == 'o' {
        10

    } else if s.len() == 5 && s[0] == 's' && s[1] == 'e' && s[2] == 'r' && s[3] == 'd' && s[4] == 'e' {
        11

    } else if s.len() == 6 && s[0] == 'a' && s[1] == 'n' && s[2] == 'y' && s[4] == 'o' && s[5] == 'w' {
        12

    } else if s.len() == 9 && s[0] == 't' && s[1] == 'h' && s[2] == 'i' && s[7] == 'o' && s[8] == 'r' {
        13

    } else if s.len() == 10 && s[0] == 'K' && s[1] == 'u' && s[2] == 'b' && s[8] == 'e' && s[9] == 's' {
        14

    } else if s.len() == 7 && s[0] == 'k' && s[1] == 'u' && s[2] == 'b' && s[5] == 't' && s[6] == 'l' {
        15

    } else if s.len() == 3 && s[0] == 'P' && s[1] == 'o' && s[2] == 'd' && s[1] == 'o' && s[2] == 'd' {
        16

    } else if s.len() == 10 && s[0] == 'D' && s[1] == 'e' && s[2] == 'p' && s[8] == 'n' && s[9] == 't' {
        17

    } else if s.len() == 7 && s[0] == 'S' && s[1] == 'e' && s[2] == 'r' && s[5] == 'c' && s[6] == 'e' {
        18

    } else if s.len() == 9 && s[0] == 'C' && s[1] == 'o' && s[2] == 'n' && s[7] == 'a' && s[8] == 'p' {
        19

    } else if s.len() == 7 && s[0] == 'I' && s[1] == 'n' && s[2] == 'g' && s[5] == 's' && s[6] == 's' {
        20

    } else if s.len() == 4 && s[0] == 'H' && s[1] == 'e' && s[2] == 'l' && s[2] == 'l' && s[3] == 'm' {
        21

    } else if s.len() == 9 && s[0] == 'N' && s[1] == 'a' && s[2] == 'm' && s[7] == 'c' && s[8] == 'e' {
        22

    } else if s.len() == 10 && s[0] == 'R' && s[1] == 'e' && s[2] == 'p' && s[8] == 'e' && s[9] == 't' {
        23

    } else if s.len() == 11 && s[0] == 'S' && s[1] == 't' && s[2] == 'a' && s[9] == 'e' && s[10] == 't' {
        24

    } else if s.len() == 9 && s[0] == 'D' && s[1] == 'a' && s[2] == 'e' && s[7] == 'e' && s[8] == 't' {
        25

    } else if s.len() == 7 && s[0] == 'C' && s[1] == 'r' && s[2] == 'o' && s[5] == 'o' && s[6] == 'b' {
        26

    } else if s.len() == 4 && s[0] == 'Y' && s[1] == 'A' && s[2] == 'M' && s[2] == 'M' && s[3] == 'L' {
        27

    } else if s.len() == 10 && s[0] == 'k' && s[1] == 'u' && s[2] == 'b' && s[8] == 'i' && s[9] == 'g' {
        28

    } else if s.len() == 10 && s[0] == 'T' && s[1] == 'y' && s[2] == 'p' && s[8] == 'p' && s[9] == 't' {
        29

    } else if s.len() == 10 && s[0] == 'J' && s[1] == 'a' && s[2] == 'v' && s[8] == 'p' && s[9] == 't' {
        30

    } else if s.len() == 5 && s[0] == 'R' && s[1] == 'e' && s[2] == 'a' && s[3] == 'c' && s[4] == 't' {
        31

    } else if s.len() == 3 && s[0] == 'V' && s[1] == 'u' && s[2] == 'e' && s[1] == 'u' && s[2] == 'e' {
        32

    } else if s.len() == 7 && s[0] == 'N' && s[1] == 'o' && s[2] == 'd' && s[5] == 'j' && s[6] == 's' {
        33

    } else if s.len() == 3 && s[0] == 'n' && s[1] == 'p' && s[2] == 'm' && s[1] == 'p' && s[2] == 'm' {
        34

    } else if s.len() == 4 && s[0] == 'p' && s[1] == 'n' && s[2] == 'p' && s[2] == 'p' && s[3] == 'm' {
        35

    } else if s.len() == 4 && s[0] == 'V' && s[1] == 'i' && s[2] == 't' && s[2] == 't' && s[3] == 'e' {
        36

    } else if s.len() == 7 && s[0] == 'w' && s[1] == 'e' && s[2] == 'b' && s[5] == 'c' && s[6] == 'k' {
        37

    } else if s.len() == 6 && s[0] == 'E' && s[1] == 'S' && s[2] == 'L' && s[4] == 'n' && s[5] == 't' {
        38

    } else if s.len() == 8 && s[0] == 'P' && s[1] == 'r' && s[2] == 'e' && s[6] == 'e' && s[7] == 'r' {
        39

    } else if s.len() == 9 && s[0] == 'i' && s[1] == 'n' && s[2] == 't' && s[7] == 'c' && s[8] == 'e' {
        40

    } else if s.len() == 7 && s[0] == 'g' && s[1] == 'e' && s[2] == 'n' && s[5] == 'i' && s[6] == 'c' {
        41

    } else if s.len() == 7 && s[0] == 'P' && s[1] == 'r' && s[2] == 'o' && s[5] == 's' && s[6] == 'e' {
        42

    } else if s.len() == 11 && s[0] == 'a' && s[1] == 's' && s[2] == 'y' && s[9] == 'i' && s[10] == 't' {
        43

    } else if s.len() == 3 && s[0] == 'J' && s[1] == 'S' && s[2] == 'X' && s[1] == 'S' && s[2] == 'X' {
        44

    } else if s.len() == 3 && s[0] == 'T' && s[1] == 'S' && s[2] == 'X' && s[1] == 'S' && s[2] == 'X' {
        45

    } else if s.len() == 10 && s[0] == 'P' && s[1] == 'o' && s[2] == 's' && s[8] == 'Q' && s[9] == 'L' {
        46

    } else if s.len() == 5 && s[0] == 'M' && s[1] == 'y' && s[2] == 'S' && s[3] == 'Q' && s[4] == 'L' {
        47

    } else if s.len() == 5 && s[0] == 'R' && s[1] == 'e' && s[2] == 'd' && s[3] == 'i' && s[4] == 's' {
        48

    } else if s.len() == 7 && s[0] == 'M' && s[1] == 'o' && s[2] == 'n' && s[5] == 'D' && s[6] == 'B' {
        49

    } else if s.len() == 6 && s[0] == 'S' && s[1] == 'Q' && s[2] == 'L' && s[4] == 't' && s[5] == 'e' {
        50

    } else if s.len() == 13 && s[0] == 'E' && s[1] == 'l' && s[2] == 'a' && s[11] == 'c' && s[12] == 'h' {
        51

    } else if s.len() == 5 && s[0] == 'K' && s[1] == 'a' && s[2] == 'f' && s[3] == 'k' && s[4] == 'a' {
        52

    } else if s.len() == 3 && s[0] == 'A' && s[1] == 'P' && s[2] == 'I' && s[1] == 'P' && s[2] == 'I' {
        53

    } else if s.len() == 4 && s[0] == 'R' && s[1] == 'E' && s[2] == 'S' && s[2] == 'S' && s[3] == 'T' {
        54

    } else if s.len() == 7 && s[0] == 'G' && s[1] == 'r' && s[2] == 'a' && s[5] == 'Q' && s[6] == 'L' {
        55

    } else if s.len() == 4 && s[0] == 'g' && s[1] == 'R' && s[2] == 'P' && s[2] == 'P' && s[3] == 'C' {
        56

    } else if s.len() == 9 && s[0] == 'W' && s[1] == 'e' && s[2] == 'b' && s[7] == 'e' && s[8] == 't' {
        57

    } else if s.len() == 4 && s[0] == 'J' && s[1] == 'S' && s[2] == 'O' && s[2] == 'O' && s[3] == 'N' {
        58

    } else if s.len() == 5 && s[0] == 'O' && s[1] == 'A' && s[2] == 'u' && s[3] == 't' && s[4] == 'h' {
        59

    } else if s.len() == 3 && s[0] == 'J' && s[1] == 'W' && s[2] == 'T' && s[1] == 'W' && s[2] == 'T' {
        60

    } else if s.len() == 6 && s[0] == 'D' && s[1] == 'o' && s[2] == 'c' && s[4] == 'e' && s[5] == 'r' {
        61

    } else if s.len() == 6 && s[0] == 'G' && s[1] == 'i' && s[2] == 't' && s[4] == 'u' && s[5] == 'b' {
        62

    } else if s.len() == 6 && s[0] == 'G' && s[1] == 'i' && s[2] == 't' && s[4] == 'a' && s[5] == 'b' {
        63

    } else if s.len() == 5 && s[0] == 'C' && s[1] == 'I' && s[2] == '/' && s[3] == 'C' && s[4] == 'D' {
        64

    } else if s.len() == 6 && s[0] == 'D' && s[1] == 'e' && s[2] == 'v' && s[4] == 'p' && s[5] == 's' {
        65

    } else if s.len() == 5 && s[0] == 'L' && s[1] == 'i' && s[2] == 'n' && s[3] == 'u' && s[4] == 'x' {
        66

    } else if s.len() == 5 && s[0] == 'm' && s[1] == 'a' && s[2] == 'c' && s[3] == 'O' && s[4] == 'S' {
        67

    } else if s.len() == 7 && s[0] == 'W' && s[1] == 'i' && s[2] == 'n' && s[5] == 'w' && s[6] == 's' {
        68

    } else if s.len() == 3 && s[0] == 'L' && s[1] == 'L' && s[2] == 'M' && s[1] == 'L' && s[2] == 'M' {
        69

    } else if s.len() == 3 && s[0] == 'G' && s[1] == 'P' && s[2] == 'T' && s[1] == 'P' && s[2] == 'T' {
        70

    } else if s.len() == 7 && s[0] == 'W' && s[1] == 'h' && s[2] == 'i' && s[5] == 'e' && s[6] == 'r' {
        71

    } else if s.len() == 6 && s[0] == 'O' && s[1] == 'p' && s[2] == 'e' && s[4] == 'A' && s[5] == 'I' {
        72

    } else if s.len() == 9 && s[0] == 'e' && s[1] == 'm' && s[2] == 'b' && s[7] == 'n' && s[8] == 'g' {
        73

    } else if s.len() == 9 && s[0] == 't' && s[1] == 'o' && s[2] == 'k' && s[7] == 'e' && s[8] == 'r' {
        74

    } else if s.len() == 11 && s[0] == 'f' && s[1] == 'i' && s[2] == 'n' && s[9] == 'n' && s[10] == 'g' {
        75

    } else if s.len() == 9 && s[0] == 'i' && s[1] == 'n' && s[2] == 'f' && s[7] == 'c' && s[8] == 'e' {
        76
    } else {
        -1
    }
}

proof fn lemma_word_position(i: int)
    requires
        0 <= i < tech_vocab().len(),
    ensures
        word_position(tech_vocab()[i]) == i,
{
    if i == 0 {
        reveal_strlit("Rust");
        assert(tech_vocab()[0] == "Rust"@);
        assert(word_position("Rust"@) == 0);

    } else if i == 1 {
        reveal_strlit("Cargo");
        assert(tech_vocab()[1] == "Cargo"@);
        assert(word_position("Cargo"@) == 1);

    } else if i == 2 {
        reveal_strlit("crate");
        assert(tech_vocab()[2] == "crate"@);
        assert(word_position("crate"@) == 2);

    } else if i == 3 {
        reveal_strlit("trait");
        assert(tech_vocab()[3] == "trait"@);
        assert(word_position("trait"@) == 3);

    } else if i == 4 {
        reveal_strlit("impl");
        assert(tech_vocab()[4] == "impl"@);
        assert(word_position("impl"@) == 4);

    } else if i == 5 {
        reveal_strlit("lifetime");
        assert(tech_vocab()[5] == "lifetime"@);
        assert(word_position("lifetime"@) == 5);

    } else if i == 6 {
        reveal_strlit("borrow");
        assert(tech_vocab()[6] == "borrow"@);
        assert(word_position("borrow"@) == 6);

    } else if i == 7 {
        reveal_strlit("ownership");
        assert(tech_vocab()[7] == "ownership"@);
        assert(word_position("ownership"@) == 7);

    } else if i == 8 {
        reveal_strlit("async");
        assert(tech_vocab()[8] == "async"@);
        assert(word_position("async"@) == 8);

    } else if i == 9 {
        reveal_strlit("await");
        assert(tech_vocab()[9] == "await"@);
        assert(word_position("await"@) == 9);

    } else if i == 10 {
        reveal_strlit("tokio");
        assert(tech_vocab()[10] == "tokio"@);
        assert(word_position("tokio"@) == 10);

    } else if i == 11 {
        reveal_strlit("serde");
        assert(tech_vocab()[11] == "serde"@);
        assert(word_position("serde"@) == 11);

    } else if i == 12 {
        reveal_strlit("anyhow");
        assert(tech_vocab()[12] == "anyhow"@);
        assert(word_position("anyhow"@) == 12);

    } else if i == 13 {
        reveal_strlit("thiserror");
        assert(tech_vocab()[13] == "thiserror"@);
        assert(word_position("thiserror"@) == 13);

    } else if i == 14 {
        reveal_strlit("Kubernetes");
        assert(tech_vocab()[14] == "Kubernetes"@);
        assert(word_position("Kubernetes"@) == 14);

    } else if i == 15 {
        reveal_strlit("kubectl");
        assert(tech_vocab()[15] == "kubectl"@);
        assert(word_position("kubectl"@) == 15);

    } else if i == 16 {
        reveal_strlit("Pod");
        assert(tech_vocab()[16] == "Pod"@);
        assert(word_position("Pod"@) == 16);

    } else if i == 17 {
        reveal_strlit("Deployment");
        assert(tech_vocab()[17] == "Deployment"@);
        assert(word_position("Deployment"@) == 17);

    } else if i == 18 {
        reveal_strlit("Service");
        assert(tech_vocab()[18] == "Service"@);
        assert(word_position("Service"@) == 18);

    } else if i == 19 {
        reveal_strlit("ConfigMap");
        assert(tech_vocab()[19] == "ConfigMap"@);
        assert(word_position("ConfigMap"@) == 19);

    } else if i == 20 {
        reveal_strlit("Ingress");
        assert(tech_vocab()[20] == "Ingress"@);
        assert(word_position("Ingress"@) == 20);

    } else if i == 21 {
        reveal_strlit("Helm");
        assert(tech_vocab()[21] == "Helm"@);
        assert(word_position("Helm"@) == 21);

    } else if i == 22 {
        reveal_strlit("Namespace");
        assert(tech_vocab()[22] == "Namespace"@);
        assert(word_position("Namespace"@) == 22);

    } else if i == 23 {
        reveal_strlit("ReplicaSet");
        assert(tech_vocab()[23] == "ReplicaSet"@);
        assert(word_position("ReplicaSet"@) == 23);

    } else if i == 24 {
        reveal_strlit("StatefulSet");
        assert(tech_vocab()[24] == "StatefulSet"@);
        assert(word_position("StatefulSet"@) == 24);

    } else if i == 25 {
        reveal_strlit("DaemonSet");
        assert(tech_vocab()[25] == "DaemonSet"@);
        assert(word_position("DaemonSet"@) == 25);

    } else if i == 26 {
        reveal_strlit("CronJob");
        assert(tech_vocab()[26] == "CronJob"@);
        assert(word_position("CronJob"@) == 26);

    } else if i == 27 {
        reveal_strlit("YAML");
        assert(tech_vocab()[27] == "YAML"@);
        assert(word_position("YAML"@) == 27);

    } else if i == 28 {
        reveal_strlit("kubeconfig");
        assert(tech_vocab()[28] == "kubeconfig"@);
        assert(word_position("kubeconfig"@) == 28);

    } else if i == 29 {
        reveal_strlit("TypeScript");
        assert(tech_vocab()[29] == "TypeScript"@);
        assert(word_position("TypeScript"@) == 29);

    } else if i == 30 {
        reveal_strlit("JavaScript");
        assert(tech_vocab()[30] == "JavaScript"@);
        assert(word_position("JavaScript"@) == 30);

    } else if i == 31 {
        reveal_strlit("React");
        assert(tech_vocab()[31] == "React"@);
        assert(word_position("React"@) == 31);

    } else if i == 32 {
        reveal_strlit("Vue");
        assert(tech_vocab()[32] == "Vue"@);
        assert(word_position("Vue"@) == 32);

    } else if i == 33 {
        reveal_strlit("Node.js");
        assert(tech_vocab()[33] == "Node.js"@);
        assert(word_position("Node.js"@) == 33);

    } else if i == 34 {
        reveal_strlit("npm");
        assert(tech_vocab()[34] == "npm"@);
        assert(word_position("npm"@) == 34);

    } else if i == 35 {
        reveal_strlit("pnpm");
        assert(tech_vocab()[35] == "pnpm"@);
        assert(word_position("pnpm"@) == 35);

    } else if i == 36 {
        reveal_strlit("Vite");
        assert(tech_vocab()[36] == "Vite"@);
        assert(word_position("Vite"@) == 36);

    } else if i == 37 {
        reveal_strlit("webpack");
        assert(tech_vocab()[37] == "webpack"@);
        assert(word_position("webpack"@) == 37);

    } else if i == 38 {
        reveal_strlit("ESLint");
        assert(tech_vocab()[38] == "ESLint"@);
        assert(word_position("ESLint"@) == 38);

    } else if i == 39 {
        reveal_strlit("Prettier");
        assert(tech_vocab()[39] == "Prettier"@);
        assert(word_position("Prettier"@) == 39);

    } else if i == 40 {
        reveal_strlit("interface");
        assert(tech_vocab()[40] == "interface"@);
        assert(word_position("interface"@) == 40);

    } else if i == 41 {
        reveal_strlit("generic");
        assert(tech_vocab()[41] == "generic"@);
        assert(word_position("generic"@) == 41);

    } else if i == 42 {
        reveal_strlit("Promise");
        assert(tech_vocab()[42] == "Promise"@);
        assert(word_position("Promise"@) == 42);

    } else if i == 43 {
        reveal_strlit("async/await");
        assert(tech_vocab()[43] == "async/await"@);
        assert(word_position("async/await"@) == 43);

    } else if i == 44 {
        reveal_strlit("JSX");
        assert(tech_vocab()[44] == "JSX"@);
        assert(word_position("JSX"@) == 44);

    } else if i == 45 {
        reveal_strlit("TSX");
        assert(tech_vocab()[45] == "TSX"@);
        assert(word_position("TSX"@) == 45);

    } else if i == 46 {
        reveal_strlit("PostgreSQL");
        assert(tech_vocab()[46] == "PostgreSQL"@);
        assert(word_position("PostgreSQL"@) == 46);

    } else if i == 47 {
        reveal_strlit("MySQL");
        assert(tech_vocab()[47] == "MySQL"@);
        assert(word_position("MySQL"@) == 47);

    } else if i == 48 {
        reveal_strlit("Redis");
        assert(tech_vocab()[48] == "Redis"@);
        assert(word_position("Redis"@) == 48);

    } else if i == 49 {
        reveal_strlit("MongoDB");
        assert(tech_vocab()[49] == "MongoDB"@);
        assert(word_position("MongoDB"@) == 49);

    } else if i == 50 {
        reveal_strlit("SQLite");
        assert(tech_vocab()[50] == "SQLite"@);
        assert(word_position("SQLite"@) == 50);

    } else if i == 51 {
        reveal_strlit("Elasticsearch");
        assert(tech_vocab()[51] == "Elasticsearch"@);
        assert(word_position("Elasticsearch"@) == 51);

    } else if i == 52 {
        reveal_strlit("Kafka");
        assert(tech_vocab()[52] == "Kafka"@);
        assert(word_position("Kafka"@) == 52);

    } else if i == 53 {
        reveal_strlit("API");
        assert(tech_vocab()[53] == "API"@);
        assert(word_position("API"@) == 53);

    } else if i == 54 {
        reveal_strlit("REST");
        assert(tech_vocab()[54] == "REST"@);
        assert(word_position("REST"@) == 54);

    } else if i == 55 {
        reveal_strlit("GraphQL");
        assert(tech_vocab()[55] == "GraphQL"@);
        assert(word_position("GraphQL"@) == 55);

    } else if i == 56 {
        reveal_strlit("gRPC");
        assert(tech_vocab()[56] == "gRPC"@);
        assert(word_position("gRPC"@) == 56);

    } else if i == 57 {
        reveal_strlit("WebSocket");
        assert(tech_vocab()[57] == "WebSocket"@);
        assert(word_position("WebSocket"@) == 57);

    } else if i == 58 {
        reveal_strlit("JSON");
        assert(tech_vocab()[58] == "JSON"@);
        assert(word_position("JSON"@) == 58);

    } else if i == 59 {
        reveal_strlit("OAuth");
        assert(tech_vocab()[59] == "OAuth"@);
        assert(word_position("OAuth"@) == 59);

    } else if i == 60 {
        reveal_strlit("JWT");
        assert(tech_vocab()[60] == "JWT"@);
        assert(word_position("JWT"@) == 60);

    } else if i == 61 {
        reveal_strlit("Docker");
        assert(tech_vocab()[61] == "Docker"@);
        assert(word_position("Docker"@) == 61);

    } else if i == 62 {
        reveal_strlit("GitHub");
        assert(tech_vocab()[62] == "GitHub"@);
        assert(word_position("GitHub"@) == 62);

    } else if i == 63 {
        reveal_strlit("GitLab");
        assert(tech_vocab()[63] == "GitLab"@);
        assert(word_position("GitLab"@) == 63);

    } else if i == 64 {
        reveal_strlit("CI/CD");
        assert(tech_vocab()[64] == "CI/CD"@);
        assert(word_position("CI/CD"@) == 64);

    } else if i == 65 {
        reveal_strlit("DevOps");
        assert(tech_vocab()[65] == "DevOps"@);
        assert(word_position("DevOps"@) == 65);

    } else if i == 66 {
        reveal_strlit("Linux");
        assert(tech_vocab()[66] == "Linux"@);
        assert(word_position("Linux"@) == 66);

    } else if i == 67 {
        reveal_strlit("macOS");
        assert(tech_vocab()[67] == "macOS"@);
        assert(word_position("macOS"@) == 67);

    } else if i == 68 {
        reveal_strlit("Windows");
        assert(tech_vocab()[68] == "Windows"@);
        assert(word_position("Windows"@) == 68);

    } else if i == 69 {
        reveal_strlit("LLM");
        assert(tech_vocab()[69] == "LLM"@);
        assert(word_position("LLM"@) == 69);

    } else if i == 70 {
        reveal_strlit("GPT");
        assert(tech_vocab()[70] == "GPT"@);
        assert(word_position("GPT"@) == 70);

    } else if i == 71 {
        reveal_strlit("Whisper");
        assert(tech_vocab()[71] == "Whisper"@);
        assert(word_position("Whisper"@) == 71);

    } else if i == 72 {
        reveal_strlit("OpenAI");
        assert(tech_vocab()[72] == "OpenAI"@);
        assert(word_position("OpenAI"@) == 72);

    } else if i == 73 {
        reveal_strlit("embedding");
        assert(tech_vocab()[73] == "embedding"@);
        assert(word_position("embedding"@) == 73);

    } else if i == 74 {
        reveal_strlit("tokenizer");
        assert(tech_vocab()[74] == "tokenizer"@);
        assert(word_position("tokenizer"@) == 74);

    } else if i == 75 {
        reveal_strlit("fine-tuning");
        assert(tech_vocab()[75] == "fine-tuning"@);
        assert(word_position("fine-tuning"@) == 75);

    } else if i == 76 {
        reveal_strlit("inference");
        assert(tech_vocab()[76] == "inference"@);
        assert(word_position("inference"@) == 76);
    }
}

/// The built-in words are distinct.
pub proof fn lemma_tech_vocab_distinct()
    ensures
        tech_vocab().no_duplicates(),
{
    let v = tech_vocab();
    assert forall|i: int, j: int|
        0 <= i < v.len() && 0 <= j < v.len() && i != j implies v[i] != v[j] by {
        lemma_word_position(i);
        lemma_word_position(j);
    }
}

} // verus!
